//! The three selector components of the growth engine: the delta generator
//! (how a branch tip moves), the glyph selector (what is drawn), and the
//! style selector (how it is colored).
//!
//! Each weighted table is a pure function of the drawn value with an exact
//! contract; the `*_deltas` / `choose_color` entry points make the draws and
//! are specified for every value a draw could return.

use vstd::prelude::*;

use crate::model::{BranchKind, Style};
use crate::random::{gen_range, gen_range_inclusive};

verus! {

/// Horizontal step of a middle-aged trunk: a ten-way draw weighted toward
/// small moves, with a rare lurch of two cells either way.
pub open spec fn spec_trunk_middle_dx(d: int) -> int {
    if d == 0 {
        -2
    } else if d <= 3 {
        -1
    } else if d <= 5 {
        0
    } else if d <= 8 {
        1
    } else {
        2
    }
}

/// Vertical step of a mature trunk: upward with probability 7/10.
pub open spec fn spec_trunk_mature_dy(d: int) -> int {
    if d > 2 {
        -1
    } else {
        0
    }
}

/// Vertical step of a shoot: up 2/10, level 6/10, down 2/10.
pub open spec fn spec_shoot_dy(d: int) -> int {
    if d <= 1 {
        -1
    } else if d <= 7 {
        0
    } else {
        1
    }
}

/// Horizontal step of a left shoot, biased leftward.
pub open spec fn spec_shoot_left_dx(d: int) -> int {
    if d <= 1 {
        -2
    } else if d <= 5 {
        -1
    } else if d <= 8 {
        0
    } else {
        1
    }
}

/// Horizontal step of a right shoot, the mirror of the left bias.
pub open spec fn spec_shoot_right_dx(d: int) -> int {
    if d <= 1 {
        2
    } else if d <= 5 {
        1
    } else if d <= 8 {
        0
    } else {
        -1
    }
}

/// Vertical step of a dying branch: the shoots' vertical weights,
/// up 2/10, level 6/10, down 2/10.
pub open spec fn spec_dying_dy(d: int) -> int {
    if d <= 1 {
        -1
    } else if d <= 7 {
        0
    } else {
        1
    }
}

/// Horizontal step of a dying branch: a fifteen-way symmetric spread over
/// -3..=3 with its peak near zero.
pub open spec fn spec_dying_dx(d: int) -> int {
    if d == 0 {
        -3
    } else if d <= 2 {
        -2
    } else if d <= 5 {
        -1
    } else if d <= 8 {
        0
    } else if d <= 11 {
        1
    } else if d <= 13 {
        2
    } else {
        3
    }
}

/// Vertical step of a dead branch: up 3/10, level 4/10, down 3/10.
pub open spec fn spec_dead_dy(d: int) -> int {
    if d <= 2 {
        -1
    } else if d <= 6 {
        0
    } else {
        1
    }
}

/// The middle-aged trunk's horizontal table, realized on a drawn value.
pub fn trunk_middle_dx(d: i32) -> (dx: i32)
    requires
        0 <= d < 10,
    ensures
        dx == spec_trunk_middle_dx(d as int),
{
    if d == 0 {
        -2
    } else if d <= 3 {
        -1
    } else if d <= 5 {
        0
    } else if d <= 8 {
        1
    } else {
        2
    }
}

/// The mature trunk's vertical table, realized on a drawn value.
pub fn trunk_mature_dy(d: i32) -> (dy: i32)
    requires
        0 <= d < 10,
    ensures
        dy == spec_trunk_mature_dy(d as int),
{
    if d > 2 {
        -1
    } else {
        0
    }
}

/// The shoots' vertical table, realized on a drawn value.
pub fn shoot_dy(d: i32) -> (dy: i32)
    requires
        0 <= d < 10,
    ensures
        dy == spec_shoot_dy(d as int),
{
    if d <= 1 {
        -1
    } else if d <= 7 {
        0
    } else {
        1
    }
}

/// The left shoot's horizontal table, realized on a drawn value.
pub fn shoot_left_dx(d: i32) -> (dx: i32)
    requires
        0 <= d < 10,
    ensures
        dx == spec_shoot_left_dx(d as int),
{
    if d <= 1 {
        -2
    } else if d <= 5 {
        -1
    } else if d <= 8 {
        0
    } else {
        1
    }
}

/// The right shoot's horizontal table, realized on a drawn value.
pub fn shoot_right_dx(d: i32) -> (dx: i32)
    requires
        0 <= d < 10,
    ensures
        dx == spec_shoot_right_dx(d as int),
{
    if d <= 1 {
        2
    } else if d <= 5 {
        1
    } else if d <= 8 {
        0
    } else {
        -1
    }
}

/// The dying branch's vertical table, realized on a drawn value.
pub fn dying_dy(d: i32) -> (dy: i32)
    requires
        0 <= d < 10,
    ensures
        dy == spec_dying_dy(d as int),
{
    if d <= 1 {
        -1
    } else if d <= 7 {
        0
    } else {
        1
    }
}

/// The dying branch's horizontal table, realized on a drawn value.
pub fn dying_dx(d: i32) -> (dx: i32)
    requires
        0 <= d < 15,
    ensures
        dx == spec_dying_dx(d as int),
{
    if d == 0 {
        -3
    } else if d <= 2 {
        -2
    } else if d <= 5 {
        -1
    } else if d <= 8 {
        0
    } else if d <= 11 {
        1
    } else if d <= 13 {
        2
    } else {
        3
    }
}

/// The dead branch's vertical table, realized on a drawn value.
pub fn dead_dy(d: i32) -> (dy: i32)
    requires
        0 <= d < 10,
    ensures
        dy == spec_dead_dy(d as int),
{
    if d <= 2 {
        -1
    } else if d <= 6 {
        0
    } else {
        1
    }
}

/// Draws this step's `(dx, dy)` for a branch of the given kind, age, and
/// remaining life.  Whatever the generator returns, each kind keeps to its
/// own envelope: a trunk never steps down and strays at most two cells
/// sideways (one near the root or in maturity, where the young regime also
/// forces a level step); a shoot leans at most two cells toward its named
/// side and one against it; a dead branch drifts at most one cell; only a
/// dying branch can reach three cells sideways.
pub fn set_deltas(
    branch_type: BranchKind,
    life: i32,
    age: i32,
    multiplier: i32,
    rng: &mut rand::rngs::StdRng,
) -> (delta: (i32, i32))
    requires
        1 <= multiplier <= i32::MAX / 3,
    ensures
        -3 <= delta.0 <= 3,
        -1 <= delta.1 <= 1,
        branch_type is Trunk ==> -2 <= delta.0 <= 2 && delta.1 <= 0,
        branch_type is Trunk && (age <= 2 || life < 4) ==> delta.1 == 0 && -1 <= delta.0 <= 1,
        branch_type is Trunk && !(age <= 2 || life < 4) && age < multiplier * 3 ==> (delta.1
            == -1 <==> (age as int) % ((multiplier as int) / 2) == 0),
        branch_type is Trunk && !(age <= 2 || life < 4) && !(age < multiplier * 3) ==> -1
            <= delta.0 <= 1,
        branch_type is ShootLeft ==> -2 <= delta.0 <= 1,
        branch_type is ShootRight ==> -1 <= delta.0 <= 2,
        branch_type is Dead ==> -1 <= delta.0 <= 1,
{
    let (dx, dy): (i32, i32);
    match branch_type {
        BranchKind::Trunk => {
            if age <= 2 || life < 4 {
                dy = 0;
                dx = gen_range_inclusive(rng, -1, 1);
            } else if age < multiplier * 3 {
                if age % (multiplier / 2) == 0 {
                    dy = -1;
                } else {
                    dy = 0;
                }
                dx = trunk_middle_dx(gen_range(rng, 0, 10));
            } else {
                dy = trunk_mature_dy(gen_range(rng, 0, 10));
                dx = gen_range_inclusive(rng, -1, 1);
            }
        },
        BranchKind::ShootLeft => {
            dy = shoot_dy(gen_range(rng, 0, 10));
            dx = shoot_left_dx(gen_range(rng, 0, 10));
        },
        BranchKind::ShootRight => {
            dy = shoot_dy(gen_range(rng, 0, 10));
            dx = shoot_right_dx(gen_range(rng, 0, 10));
        },
        BranchKind::Dying => {
            dy = dying_dy(gen_range(rng, 0, 10));
            dx = dying_dx(gen_range(rng, 0, 15));
        },
        BranchKind::Dead => {
            dy = dead_dy(gen_range(rng, 0, 10));
            dx = gen_range_inclusive(rng, -1, 1);
        },
    }
    (dx, dy)
}

/// The glyph drawn for one step: leaves for anything near death, otherwise a
/// direction-hinting piece of trunk or shoot.
pub open spec fn spec_glyph(kind: BranchKind, life: int, dx: int, dy: int) -> Seq<char> {
    if life < 4 {
        "&"@
    } else {
        match kind {
            BranchKind::Trunk => {
                if dx == 0 && dy == 0 {
                    "/~"@
                } else if dx < 0 {
                    "\\|"@
                } else if dx == 0 {
                    "/|\\"@
                } else {
                    "|/"@
                }
            },
            BranchKind::ShootLeft => {
                if dy > 0 {
                    "\\"@
                } else if dx == 0 && dy == 0 {
                    "\\_"@
                } else if dx < 0 {
                    "\\|"@
                } else if dx == 0 {
                    "/|"@
                } else {
                    "/"@
                }
            },
            BranchKind::ShootRight => {
                if dy > 0 {
                    "/"@
                } else if dx == 0 && dy == 0 {
                    "_/"@
                } else if dx < 0 {
                    "\\|"@
                } else if dx == 0 {
                    "/|"@
                } else {
                    "/"@
                }
            },
            BranchKind::Dying => "&"@,
            BranchKind::Dead => "&"@,
        }
    }
}

/// Resolves the glyph for a step.  A deterministic lookup: no randomness.
pub fn choose_string(branch_type: BranchKind, life: i32, dx: i32, dy: i32) -> (glyph: String)
    ensures
        glyph@ == spec_glyph(branch_type, life as int, dx as int, dy as int),
{
    let piece: &str = if life < 4 {
        "&"
    } else {
        match branch_type {
            BranchKind::Trunk => {
                if dx == 0 && dy == 0 {
                    "/~"
                } else if dx < 0 {
                    "\\|"
                } else if dx == 0 {
                    "/|\\"
                } else {
                    "|/"
                }
            },
            BranchKind::ShootLeft => {
                if dy > 0 {
                    "\\"
                } else if dx == 0 && dy == 0 {
                    "\\_"
                } else if dx < 0 {
                    "\\|"
                } else if dx == 0 {
                    "/|"
                } else {
                    "/"
                }
            },
            BranchKind::ShootRight => {
                if dy > 0 {
                    "/"
                } else if dx == 0 && dy == 0 {
                    "_/"
                } else if dx < 0 {
                    "\\|"
                } else if dx == 0 {
                    "/|"
                } else {
                    "/"
                }
            },
            BranchKind::Dying => "&",
            BranchKind::Dead => "&",
        }
    };
    piece.to_string()
}

/// The style each kind may wear: growing wood is bright or plain yellow,
/// dying branches green, dead ones leaf-like bright green.
pub open spec fn spec_style_ok(kind: BranchKind, style: Style) -> bool {
    match kind {
        BranchKind::Trunk | BranchKind::ShootLeft | BranchKind::ShootRight => {
            (style.bold && style.foreground_color == 11) || (!style.bold
                && style.foreground_color == 3)
        },
        BranchKind::Dying => style.foreground_color == 2,
        BranchKind::Dead => style.foreground_color == 10,
    }
}

/// How many faces the style draw has for each kind.
pub open spec fn spec_style_draw_bound(kind: BranchKind) -> i32 {
    match kind {
        BranchKind::Trunk | BranchKind::ShootLeft | BranchKind::ShootRight => 2,
        BranchKind::Dying => 10,
        BranchKind::Dead => 3,
    }
}

/// The style a drawn value selects: face zero of the draw is the bold,
/// brighter variant; every other face the plain one.
pub open spec fn spec_style_for(kind: BranchKind, d: i32) -> Style {
    match kind {
        BranchKind::Trunk | BranchKind::ShootLeft | BranchKind::ShootRight => {
            if d == 0 {
                Style { bold: true, foreground_color: 11 }
            } else {
                Style { bold: false, foreground_color: 3 }
            }
        },
        BranchKind::Dying => {
            if d == 0 {
                Style { bold: true, foreground_color: 2 }
            } else {
                Style { bold: false, foreground_color: 2 }
            }
        },
        BranchKind::Dead => {
            if d == 0 {
                Style { bold: true, foreground_color: 10 }
            } else {
                Style { bold: false, foreground_color: 10 }
            }
        },
    }
}

/// The style table, realized on a drawn value.
pub fn style_for(kind: BranchKind, d: i32) -> (style: Style)
    requires
        0 <= d < spec_style_draw_bound(kind),
    ensures
        style == spec_style_for(kind, d),
        spec_style_ok(kind, style),
{
    match kind {
        BranchKind::Trunk | BranchKind::ShootLeft | BranchKind::ShootRight => {
            if d == 0 {
                Style { bold: true, foreground_color: 11 }
            } else {
                Style { bold: false, foreground_color: 3 }
            }
        },
        BranchKind::Dying => {
            if d == 0 {
                Style { bold: true, foreground_color: 2 }
            } else {
                Style { bold: false, foreground_color: 2 }
            }
        },
        BranchKind::Dead => {
            if d == 0 {
                Style { bold: true, foreground_color: 10 }
            } else {
                Style { bold: false, foreground_color: 10 }
            }
        },
    }
}

/// Draws the style for one step of the given kind.  Whatever the generator
/// returns, the style is one this kind is allowed to wear.
pub fn choose_color(branch_type: BranchKind, rng: &mut rand::rngs::StdRng) -> (style: Style)
    ensures
        spec_style_ok(branch_type, style),
{
    let bound = match branch_type {
        BranchKind::Trunk | BranchKind::ShootLeft | BranchKind::ShootRight => 2,
        BranchKind::Dying => 10,
        BranchKind::Dead => 3,
    };
    let d = gen_range(rng, 0, bound);
    style_for(branch_type, d)
}

} // verus!
