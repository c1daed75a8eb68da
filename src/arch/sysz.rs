//! Instruction details for the SystemZ architecture.

use vstd::prelude::*;

verus! {

/// Architecture detail record for SystemZ instructions.
#[derive(Clone, Copy)]
pub struct Details {
    x: u32,
}

} // verus!
