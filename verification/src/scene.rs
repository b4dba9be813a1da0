use vstd::prelude::*;

verus! {

/// Placeholder for the scene contents a future renderer will intersect rays
/// against. The camera mathematics never depends on what a scene holds, so
/// this type is deliberately empty: it marks the extension point and keeps
/// the layering where ray generation is independent of scene content.
#[derive(Clone, Copy, PartialEq, Eq, Structural)]
pub struct Scene {}

} // verus!
