//! Display sizing for the player: the source video size, the viewport the
//! player is given, and the derived output size that letterboxes the video
//! into the viewport.
//!
//! The output size keeps the source's aspect ratio and fills the viewport
//! in the binding dimension; the other dimension is scaled by the same
//! ratio, rounded to the nearest pixel. While either size is unknown or
//! degenerate — a zero dimension, or the 1×1 placeholder a player starts
//! with — the output falls back to the 1×1 placeholder.

use vstd::prelude::*;

verus! {

/// A size is degenerate while a dimension is zero or while it is the 1×1
/// placeholder that stands for "not yet known".
pub open spec fn degenerate(size: (u32, u32)) -> bool {
    size.0 == 0 || size.1 == 0 || (size.0 == 1 && size.1 == 1)
}

/// Division of non-negative `a` by positive `b`, rounded to nearest.
pub open spec fn round_div(a: int, b: int) -> int {
    (a + b / 2) / b
}

/// The letterboxed output size: the largest size of the source's aspect
/// ratio that fits the viewport, rounded to the nearest pixel, or the 1×1
/// placeholder while either input is degenerate.
pub open spec fn fitted_size(original: (u32, u32), viewport: (u32, u32)) -> (u32, u32) {
    if degenerate(original) || degenerate(viewport) {
        (1u32, 1u32)
    } else if viewport.0 * original.1 <= viewport.1 * original.0 {
        // Width is the binding dimension: scale by viewport.0 / original.0.
        (viewport.0, round_div(original.1 * viewport.0, original.0 as int) as u32)
    } else {
        (round_div(original.0 * viewport.1, original.1 as int) as u32, viewport.1)
    }
}

/// Rounded scaling stays within the viewport's free dimension: with
/// `a <= limit * b`, nearest-rounded `a / b` is at most `limit`.
proof fn lemma_round_div_bounded(a: int, b: int, limit: int)
    requires
        0 <= a,
        1 <= b,
        0 <= limit,
        a <= limit * b,
    ensures
        0 <= round_div(a, b) <= limit,
{
    assert(a + b / 2 < (limit + 1) * b) by (nonlinear_arith)
        requires
            1 <= b,
            a <= limit * b,
    ;
    assert((a + b / 2) / b <= limit) by (nonlinear_arith)
        requires
            1 <= b,
            0 <= a + b / 2,
            a + b / 2 < (limit + 1) * b,
    ;
    assert(0 <= (a + b / 2) / b) by (nonlinear_arith)
        requires
            1 <= b,
            0 <= a + b / 2,
    ;
}

/// Computes `fitted_size` on machine integers.
pub fn calc_output_size(original: (u32, u32), viewport: (u32, u32)) -> (r: (u32, u32))
    ensures
        r == fitted_size(original, viewport),
{
    if original.0 == 0 || original.1 == 0 || (original.0 == 1 && original.1 == 1)
        || viewport.0 == 0 || viewport.1 == 0 || (viewport.0 == 1 && viewport.1 == 1) {
        return (1, 1);
    }
    let ow = original.0 as u64;
    let oh = original.1 as u64;
    let vw = viewport.0 as u64;
    let vh = viewport.1 as u64;
    proof {
        assert(vw * oh <= 0xffff_ffff * 0xffff_ffff && vh * ow <= 0xffff_ffff * 0xffff_ffff
            && oh * vw <= 0xffff_ffff * 0xffff_ffff && ow * vh <= 0xffff_ffff * 0xffff_ffff)
            by (nonlinear_arith)
            requires
                ow <= 0xffff_ffff,
                oh <= 0xffff_ffff,
                vw <= 0xffff_ffff,
                vh <= 0xffff_ffff,
        ;
    }
    if vw * oh <= vh * ow {
        proof {
            lemma_round_div_bounded((oh * vw) as int, ow as int, vh as int);
        }
        let h = (oh * vw + ow / 2) / ow;
        (viewport.0, h as u32)
    } else {
        proof {
            lemma_round_div_bounded((ow * vh) as int, oh as int, vw as int);
        }
        let w = (ow * vh + oh / 2) / oh;
        (w as u32, viewport.1)
    }
}

/// The three sizes the player tracks, with the output size kept equal to
/// `fitted_size` of the other two.
pub struct PlayerSize {
    original_size: (u32, u32),
    view_size: (u32, u32),
    output_size: (u32, u32),
}

impl PlayerSize {
    /// The source video's size.
    pub closed spec fn spec_original(self) -> (u32, u32) {
        self.original_size
    }

    /// The viewport the player is given.
    pub closed spec fn spec_view(self) -> (u32, u32) {
        self.view_size
    }

    /// The derived output size.
    pub closed spec fn spec_output(self) -> (u32, u32) {
        self.output_size
    }

    /// The output size is never stale: it always equals `fitted_size` of
    /// the current source size and viewport.
    pub open spec fn wf(self) -> bool {
        self.spec_output() == fitted_size(self.spec_original(), self.spec_view())
    }

    /// A fresh sizing state: placeholder source, unknown viewport.
    pub fn new() -> (r: PlayerSize)
        ensures
            r.wf(),
            r.spec_original() == (1u32, 1u32),
            r.spec_view() == (0u32, 0u32),
            r.spec_output() == (1u32, 1u32),
    {
        PlayerSize { original_size: (1, 1), view_size: (0, 0), output_size: (1, 1) }
    }

    /// Updates whichever sizes are given and recomputes the output size.
    pub fn set_size(&mut self, original: Option<(u32, u32)>, viewport: Option<(u32, u32)>)
        ensures
            final(self).wf(),
            final(self).spec_original() == match original {
                Some(o) => o,
                None => old(self).spec_original(),
            },
            final(self).spec_view() == match viewport {
                Some(v) => v,
                None => old(self).spec_view(),
            },
    {
        if let Some(o) = original {
            self.original_size = o;
        }
        if let Some(v) = viewport {
            self.view_size = v;
        }
        self.output_size = calc_output_size(self.original_size, self.view_size);
    }

    /// Records the source video's size, as learned when a file is opened.
    pub fn set_original(&mut self, size: (u32, u32))
        ensures
            final(self).wf(),
            final(self).spec_original() == size,
            final(self).spec_view() == old(self).spec_view(),
    {
        self.set_size(Some(size), None);
    }

    /// Records the viewport, as learned from layout.
    pub fn set_view(&mut self, size: (u32, u32))
        ensures
            final(self).wf(),
            final(self).spec_original() == old(self).spec_original(),
            final(self).spec_view() == size,
    {
        self.set_size(None, Some(size));
    }

    pub fn original_size(&self) -> (r: (u32, u32))
        ensures
            r == self.spec_original(),
    {
        self.original_size
    }

    pub fn view_size(&self) -> (r: (u32, u32))
        ensures
            r == self.spec_view(),
    {
        self.view_size
    }

    pub fn output_size(&self) -> (r: (u32, u32))
        ensures
            r == self.spec_output(),
    {
        self.output_size
    }
}

} // verus!
