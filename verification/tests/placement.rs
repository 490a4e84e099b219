use claw_kernel::placement::{choose_placement, Placement};

#[test]
fn placement_prefers_below() {
    assert_eq!(choose_placement(true, true, true, true), Placement::Below);
    assert_eq!(choose_placement(true, false, false, false), Placement::Below);
}

#[test]
fn placement_above_when_below_has_no_room() {
    assert_eq!(choose_placement(false, true, true, true), Placement::Above);
}

#[test]
fn placement_right_then_left() {
    assert_eq!(choose_placement(false, false, true, true), Placement::Right);
    assert_eq!(choose_placement(false, false, false, true), Placement::Left);
}

#[test]
fn placement_falls_back_only_without_room() {
    assert_eq!(choose_placement(false, false, false, false), Placement::Fallback);
    for bits in 1u8..16 {
        let p = choose_placement(bits & 1 != 0, bits & 2 != 0, bits & 4 != 0, bits & 8 != 0);
        assert_ne!(p, Placement::Fallback);
    }
}

#[test]
fn placement_labels() {
    assert_eq!(Placement::Below.label(), "below");
    assert_eq!(Placement::Above.label(), "above");
    assert_eq!(Placement::Right.label(), "right");
    assert_eq!(Placement::Left.label(), "left");
    assert_eq!(Placement::Fallback.label(), "fallback");
}

#[test]
fn placement_labels_are_distinct() {
    let all = [
        Placement::Below,
        Placement::Above,
        Placement::Right,
        Placement::Left,
        Placement::Fallback,
    ];
    for p in all {
        for q in all {
            if p != q {
                assert_ne!(p.label(), q.label());
            }
        }
    }
}
