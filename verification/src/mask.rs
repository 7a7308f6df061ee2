use vstd::prelude::*;

verus! {

/// Largest number of tasks that a mask can select from.
pub const MAX_TASKS: usize = 512;

/// Number of 128-bit words in a mask.
pub const MASK_WORDS: usize = MAX_TASKS / 128 + 1;

/// Selects regions of a copper list, one bit per task.
///
/// Nothing reads a mask yet. It is meant for filtering out the regions of a copper list
/// that a remote system needs.
#[derive(Debug, PartialEq, Clone, Copy)]
pub struct CopperLiskMask {
    pub mask: [u128; MASK_WORDS],
}

} // verus!
