//! Instants in time, as the validation stage and the entities carry
//! them.

use vstd::prelude::*;

verus! {

/// A UTC instant with microsecond precision, counted from the Unix
/// epoch; negative values lie before it. The surrounding stack owns
/// reading the clock; the core only compares and stores instants.
#[derive(Clone, Copy, PartialEq, Eq, Structural, Debug)]
pub struct Timestamp {
    pub micros: i64,
}

impl Timestamp {
    /// Whether `self` lies strictly after `other`.
    pub fn is_after(&self, other: &Timestamp) -> (r: bool)
        ensures
            r == (self.micros > other.micros),
    {
        self.micros > other.micros
    }
}

} // verus!
