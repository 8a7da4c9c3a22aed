//! Core of a desktop media player: the real-time playback engine.
//!
//! The engine is split along the three execution contexts of the running
//! program. A decode thread turns a container into video frames and audio
//! samples and fills two bounded queues; an audio callback drains one queue
//! on the hardware clock; the control thread owns the playback orchestrator,
//! which paces video presentation against a software clock and handles
//! pause, resume and seek.
//!
//! This crate holds the decision logic of all three contexts — the clock,
//! the bounded queues, the decode-engine state machine, the audio-callback
//! fill policy and the orchestrator — as verified sequential code. Wall
//! time enters as an explicit microsecond parameter, and the container,
//! codec and sound-device work is performed by the surrounding program,
//! which drives these state machines and carries out the actions they
//! return.

pub mod audio;
pub mod engine;
pub mod event;
pub mod frame;
pub mod media;
pub mod player;
pub mod queue;
pub mod selection;
pub mod size;
pub mod timer;
