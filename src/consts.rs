use vstd::prelude::*;

verus! {

/// The attribute that holds the behaviors attached to an element.
pub const TABSTER_ATTRIBUTE_NAME: &'static str = "data-tabster";

/// The attribute that marks an invisible boundary marker.
pub const TABSTER_DUMMY_INPUT_ATTRIBUTE_NAME: &'static str = "data-tabster-dummy";

/// How far a group lets the tab key in.
#[derive(Clone, Copy, Debug, PartialEq, Eq, Structural)]
pub enum GroupperTabbabilities {
    Unlimited,
    /// Explicit Enter is needed to go inside.
    Limited,
    /// As `Limited`, plus focus is trapped once inside.
    LimitedTrapFocus,
}

pub open spec fn tabbability_code(t: GroupperTabbabilities) -> u8 {
    match t {
        GroupperTabbabilities::Unlimited => 0,
        GroupperTabbabilities::Limited => 1,
        GroupperTabbabilities::LimitedTrapFocus => 2,
    }
}

impl GroupperTabbabilities {
    /// The numeric code stored in group properties.
    pub fn value(&self) -> (r: u8)
        ensures
            r == tabbability_code(*self),
    {
        match self {
            GroupperTabbabilities::Unlimited => 0,
            GroupperTabbabilities::Limited => 1,
            GroupperTabbabilities::LimitedTrapFocus => 2,
        }
    }
}

/// Where boundary markers are placed around a container.
#[derive(Clone, Copy, Debug, PartialEq, Eq, Structural)]
pub enum SysDummyInputsPositions {
    /// Depends on the container's tag and on the behavior's default.
    Auto,
    /// Always inside the container.
    Inside,
    /// Always outside the container.
    Outside,
}

pub open spec fn position_code(p: SysDummyInputsPositions) -> u8 {
    match p {
        SysDummyInputsPositions::Auto => 0,
        SysDummyInputsPositions::Inside => 1,
        SysDummyInputsPositions::Outside => 2,
    }
}

impl SysDummyInputsPositions {
    /// The numeric code stored in system properties.
    pub fn value(&self) -> (r: u8)
        ensures
            r == position_code(*self),
    {
        match self {
            SysDummyInputsPositions::Auto => 0,
            SysDummyInputsPositions::Inside => 1,
            SysDummyInputsPositions::Outside => 2,
        }
    }
}

/// Arrow-key directions of a list.
pub const MOVER_DIRECTION_BOTH: u8 = 0;
pub const MOVER_DIRECTION_VERTICAL: u8 = 1;
pub const MOVER_DIRECTION_HORIZONTAL: u8 = 2;
pub const MOVER_DIRECTION_GRID: u8 = 3;
pub const MOVER_DIRECTION_GRID_LINEAR: u8 = 4;

/// Visibility levels tracked for the elements of a list.
pub const VISIBILITY_INVISIBLE: u8 = 0;
pub const VISIBILITY_PARTIALLY_VISIBLE: u8 = 1;
pub const VISIBILITY_VISIBLE: u8 = 2;

} // verus!
