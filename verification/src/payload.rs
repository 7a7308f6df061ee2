use vstd::prelude::*;

verus! {

/// One message of a payload, with its concrete type erased.
pub trait ErasedCuStampedData {

}

/// A value that can hand out the messages it holds.
pub trait ErasedCuStampedDataSet {
    /// The messages.
    fn cumsgs(&self) -> Vec<&dyn ErasedCuStampedData>;

    /// The messages, open to modification.
    fn cumsgs_mut(&mut self) -> Vec<&mut dyn ErasedCuStampedData>;
}

/// What a copper list can carry: typically a tuple with one message per task.
pub trait CopperListTuple: ErasedCuStampedDataSet + Default {

}

impl<T: ErasedCuStampedDataSet + Default> CopperListTuple for T {

}

/// A payload type whose values can start out as zeroed memory.
pub trait CuListZeroedInit: CopperListTuple {
    /// The payload that memory filled with zero bytes would hold.
    fn zeroed() -> Self;

    /// Fixes up a zero-initialized payload so that all its fields are in a valid state.
    fn init_zeroed(&mut self);
}

} // verus!
