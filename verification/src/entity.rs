//! ECS entities as plain values.
use vstd::prelude::*;

verus! {

/// An ECS entity, carried as the bits the ECS gives it.
#[derive(Debug, Clone, Copy, PartialEq, Eq, Structural, Hash)]
pub struct EntityId(pub u64);

} // verus!
