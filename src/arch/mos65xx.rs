//! Instruction details for the MOS 65xx architecture.

use core::marker::PhantomData;
use vstd::prelude::*;

verus! {

/// Architecture detail record for MOS 65xx instructions.
#[derive(Clone, Copy)]
pub struct Details<'c> {
    x: u32,
    _phantom: PhantomData<&'c ()>,
}

} // verus!
