//! Alignment configuration for containers.
use vstd::prelude::*;

verus! {

/// How children are placed along a container's main axis (vertical for a
/// column, horizontal for a row).
#[derive(Debug, Clone, Copy, PartialEq, Eq, Structural)]
pub enum MainAxisAlignment {
    /// Children at the start of the axis.
    Start,
    /// Children at the end of the axis.
    End,
    /// Children at the center of the axis.
    Center,
    /// Equal space between children, none at the ends.
    SpaceBetween,
    /// Equal space around each child.
    SpaceAround,
    /// Equal space between children and at both ends.
    SpaceEvenly,
}

impl Default for MainAxisAlignment {
    fn default() -> (r: Self)
        ensures
            r == MainAxisAlignment::Start,
    {
        MainAxisAlignment::Start
    }
}

/// How children are placed along a container's cross axis (horizontal for a
/// column, vertical for a row).
#[derive(Debug, Clone, Copy, PartialEq, Eq, Structural)]
pub enum CrossAxisAlignment {
    /// Children at the start of the cross axis.
    Start,
    /// Children at the end of the cross axis.
    End,
    /// Children at the center of the cross axis.
    Center,
    /// Children stretched to fill the cross axis.
    Stretch,
}

impl Default for CrossAxisAlignment {
    fn default() -> (r: Self)
        ensures
            r == CrossAxisAlignment::Start,
    {
        CrossAxisAlignment::Start
    }
}

} // verus!
