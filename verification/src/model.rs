//! The data the growth engine produces: branch kinds, grid positions,
//! visual styles, and the draw events that make up a finished tree.

use vstd::prelude::*;

verus! {

/// The role a growing branch tip currently plays.  A tip never returns to a
/// growing kind once it is `Dying` or `Dead`.
#[derive(Clone, Copy, PartialEq, Eq, Structural, Debug)]
pub enum BranchKind {
    /// The main trunk of the tree (and trunk forks).
    Trunk,
    /// A side shoot that drifts leftward.
    ShootLeft,
    /// A side shoot that drifts rightward.
    ShootRight,
    /// A branch at the end of its life, scattering leaves.
    Dying,
    /// A spent branch that only drops leaves.
    Dead,
}

impl BranchKind {
    /// The kinds that still grow and may spawn children.
    pub open spec fn is_growing(self) -> bool {
        self is Trunk || self is ShootLeft || self is ShootRight
    }
}

/// A terminal cell coordinate.  `x` grows rightward, `y` downward.
#[derive(Clone, Copy, PartialEq, Eq, Structural, Debug)]
pub struct Position {
    pub x: i32,
    pub y: i32,
}

/// How a glyph is painted: bold or plain, with an ANSI-256 foreground value.
/// The background is always the terminal's own default.
#[derive(Clone, Copy, PartialEq, Eq, Structural, Debug)]
pub struct Style {
    pub bold: bool,
    pub foreground_color: u8,
}

/// One surviving growth step: where to draw, what to draw, how to style it,
/// plus the provenance the diagnostic overlay shows (branch kind label,
/// remaining life, the step's deltas, and the run's shoot bookkeeping).
pub struct Val {
    pub style: Style,
    pub char: String,
    pub pos: Position,
    pub dx: i32,
    pub dy: i32,
    pub life: i32,
    pub branch_type: String,
    pub shoots: i32,
    pub shoot_cooldown: i32,
}

/// The label a draw event carries for its branch kind.
pub fn kind_label(kind: BranchKind) -> (label: String)
    ensures
        label@ == spec_kind_label(kind),
{
    match kind {
        BranchKind::Trunk => "Trunk".to_string(),
        BranchKind::ShootLeft => "ShootLeft".to_string(),
        BranchKind::ShootRight => "ShootRight".to_string(),
        BranchKind::Dying => "Dying".to_string(),
        BranchKind::Dead => "Dead".to_string(),
    }
}

/// The label text for each branch kind.
pub open spec fn spec_kind_label(kind: BranchKind) -> Seq<char> {
    match kind {
        BranchKind::Trunk => "Trunk"@,
        BranchKind::ShootLeft => "ShootLeft"@,
        BranchKind::ShootRight => "ShootRight"@,
        BranchKind::Dying => "Dying"@,
        BranchKind::Dead => "Dead"@,
    }
}

} // verus!
