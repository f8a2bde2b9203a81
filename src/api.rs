//! Constants of the embedding interface's C declarations.
#![allow(non_upper_case_globals)]
use vstd::prelude::*;

verus! {

/// The C `true` the interface uses for boolean results.
pub const true_: u32 = 1;

/// The C `false` the interface uses for boolean results.
pub const false_: u32 = 0;

/// A raw environment pointer, as the embedding interface passes it.
#[derive(Clone, Copy, Debug, PartialEq, Eq, Structural)]
pub struct Env(pub usize);

/// A raw value pointer, as the embedding interface passes it.
#[derive(Clone, Copy, Debug, PartialEq, Eq, Structural)]
pub struct Value(pub usize);

impl Env {
    /// The raw pointer.
    pub fn raw(&self) -> (r: usize)
        ensures
            r == self.0,
    {
        self.0
    }
}

impl Value {
    /// The raw pointer.
    pub fn raw(&self) -> (r: usize)
        ensures
            r == self.0,
    {
        self.0
    }
}

} // verus!
