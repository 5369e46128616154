//! The Korg Triton page: its tools are not written yet, so it draws nothing.

use vstd::prelude::*;
use crate::units::Area;
use crate::term::Command;

verus! {

/// The commands for the Korg Triton tools.
#[derive(Copy, Clone, Debug, PartialEq, Eq, Structural)]
pub enum Triton {
    /// Work on a PCG file.
    PCG,
}

/// The page of the Korg Triton.
#[derive(Copy, Clone, Debug, Default)]
pub struct TritonUI {}

impl TritonUI {
    pub fn new() -> (r: Self)
        ensures
            r == (TritonUI {}),
    {
        TritonUI {}
    }

    /// Draws nothing.
    pub fn render(&self, area: Area) -> (r: Vec<Command>)
        ensures
            r@.len() == 0,
    {
        Vec::new()
    }
}

} // verus!
