//! Where the tooltip popover goes relative to the highlighted element.
//!
//! The geometry (which sides leave room for the popover inside the screen
//! margins) is measured in floating point by the caller; this module makes
//! the choice among the sides and names it.

use vstd::prelude::*;

verus! {

/// The side of the highlighted element on which the tooltip is placed.
#[derive(Clone, Copy, Debug, PartialEq, Eq, Structural)]
pub enum Placement {
    Below,
    Above,
    Right,
    Left,
    Fallback,
}

/// The preference order: below, then above, then right, then left, and the
/// pinned fallback when no side has room.
pub open spec fn spec_choose_placement(
    fits_below: bool,
    fits_above: bool,
    fits_right: bool,
    fits_left: bool,
) -> Placement {
    if fits_below {
        Placement::Below
    } else if fits_above {
        Placement::Above
    } else if fits_right {
        Placement::Right
    } else if fits_left {
        Placement::Left
    } else {
        Placement::Fallback
    }
}

/// Whether the tooltip fits on the given side.
pub open spec fn fits_on(
    p: Placement,
    fits_below: bool,
    fits_above: bool,
    fits_right: bool,
    fits_left: bool,
) -> bool {
    match p {
        Placement::Below => fits_below,
        Placement::Above => fits_above,
        Placement::Right => fits_right,
        Placement::Left => fits_left,
        Placement::Fallback => true,
    }
}

/// The rank of a side in the preference order.
pub open spec fn rank(p: Placement) -> int {
    match p {
        Placement::Below => 0,
        Placement::Above => 1,
        Placement::Right => 2,
        Placement::Left => 3,
        Placement::Fallback => 4,
    }
}

/// Chooses the side of the tooltip from which sides have room.
pub fn choose_placement(fits_below: bool, fits_above: bool, fits_right: bool, fits_left: bool) -> (p:
    Placement)
    ensures
        p == spec_choose_placement(fits_below, fits_above, fits_right, fits_left),
{
    if fits_below {
        Placement::Below
    } else if fits_above {
        Placement::Above
    } else if fits_right {
        Placement::Right
    } else if fits_left {
        Placement::Left
    } else {
        Placement::Fallback
    }
}

impl Placement {
    /// The name of the side, as the tooltip page receives it.
    pub open spec fn spec_label(self) -> Seq<char> {
        match self {
            Placement::Below => "below"@,
            Placement::Above => "above"@,
            Placement::Right => "right"@,
            Placement::Left => "left"@,
            Placement::Fallback => "fallback"@,
        }
    }

    /// The name of the side, as the tooltip page receives it.
    pub fn label(&self) -> (s: &'static str)
        ensures
            s@ == self.spec_label(),
    {
        match self {
            Placement::Below => "below",
            Placement::Above => "above",
            Placement::Right => "right",
            Placement::Left => "left",
            Placement::Fallback => "fallback",
        }
    }
}

/// The chosen side has room, and every side preferred to it has none: the
/// tooltip goes below whenever it fits there, and falls back only when no
/// side has room.
pub proof fn lemma_placement_is_first_that_fits(
    fits_below: bool,
    fits_above: bool,
    fits_right: bool,
    fits_left: bool,
    q: Placement,
)
    ensures
        ({
            let p = spec_choose_placement(fits_below, fits_above, fits_right, fits_left);
            &&& fits_on(p, fits_below, fits_above, fits_right, fits_left)
            &&& (rank(q) < rank(p) ==> !fits_on(q, fits_below, fits_above, fits_right, fits_left))
            &&& (p == Placement::Fallback <==> !fits_below && !fits_above && !fits_right && !fits_left)
        }),
{
}

/// Different sides have different names.
pub proof fn lemma_labels_distinct(p: Placement, q: Placement)
    ensures
        p != q ==> p.spec_label() != q.spec_label(),
{
    reveal_strlit("below");
    reveal_strlit("above");
    reveal_strlit("right");
    reveal_strlit("left");
    reveal_strlit("fallback");
    if p != q {
        let a = p.spec_label();
        let b = q.spec_label();
        if a.len() == b.len() {
            assert(a[0] != b[0]);
        }
    }
}

} // verus!
