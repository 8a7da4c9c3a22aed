use picargo::selection::SelectionRange;
use picargo::selection::clamp_us;

const DURATION: u64 = 10_000_000;

#[test]
fn clamping_into_the_media() {
    assert_eq!(clamp_us(-3_000_000, DURATION), 0);
    assert_eq!(clamp_us(4_000_000, DURATION), 4_000_000);
    assert_eq!(clamp_us(11_000_000, DURATION), DURATION);
}

#[test]
fn empty_selection_resolves_to_nothing() {
    let sel = SelectionRange::new();
    assert_eq!(sel.resolved(DURATION), None);
}

#[test]
fn missing_endpoints_default_to_the_media_bounds() {
    let mut sel = SelectionRange::new();
    sel.set_start(2_000_000, DURATION);
    assert_eq!(sel.resolved(DURATION), Some((2_000_000, DURATION)));

    let mut sel = SelectionRange::new();
    sel.set_end(7_000_000, DURATION);
    assert_eq!(sel.resolved(DURATION), Some((0, 7_000_000)));
}

#[test]
fn endpoints_are_clamped_when_set() {
    let mut sel = SelectionRange::new();
    sel.set_start(-1_000_000, DURATION);
    sel.set_end(DURATION as i64 + 5_000_000, DURATION);
    assert_eq!(sel.resolved(DURATION), Some((0, DURATION)));
}

#[test]
fn inverted_or_empty_selection_is_no_interval() {
    let mut sel = SelectionRange::new();
    sel.set_start(5_000_000, DURATION);
    sel.set_end(2_000_000, DURATION);
    assert_eq!(sel.resolved(DURATION), None);
    sel.set_end(5_000_000, DURATION);
    assert_eq!(sel.resolved(DURATION), None);
    sel.set_end(6_000_000, DURATION);
    assert_eq!(sel.resolved(DURATION), Some((5_000_000, 6_000_000)));
    sel.clear();
    assert_eq!(sel.resolved(DURATION), None);
}
