//! Identifiers and markers of scene objects.

use vstd::prelude::*;

verus! {

/// Names a node of the scene.
#[derive(Clone, Copy, PartialEq, Eq, Structural, Debug)]
pub struct NodeId(pub u32);

/// Marks a static scene object.
#[derive(Clone, Copy, PartialEq, Eq, Structural, Debug)]
pub struct StaticObject {}

/// Marks a kinematic scene object.
#[derive(Clone, Copy, PartialEq, Eq, Structural, Debug)]
pub struct KinematicObject {}

} // verus!
