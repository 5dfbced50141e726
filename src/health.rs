//! Health of an entity: a range with a marker of its own.
use vstd::prelude::*;

use crate::range::Range;

verus! {

/// Marks a range as an entity's health.
#[derive(Debug, Default)]
pub struct HealthMarker;

/// An entity's health; reaching the start limit means death, reaching the
/// end limit means full health.
pub type Health = Range<HealthMarker>;

} // verus!
