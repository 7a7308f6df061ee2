use vstd::prelude::*;
use crate::payload::CopperListTuple;
use crate::payload::ErasedCuStampedData;
use crate::payload::ErasedCuStampedDataSet;
use crate::state::CopperListState;

verus! {

/// One copper list: a payload of messages, the state of the list and its id.
#[derive(Debug)]
pub struct CopperList<P: CopperListTuple> {
    pub id: u32,
    pub state: CopperListState,
    pub msgs: P,
}

impl<P: CopperListTuple> Default for CopperList<P> {
    /// A free list with id 0 and the payload type's default payload.
    fn default() -> (list: Self)
        ensures
            list.id == 0,
            list.state == CopperListState::Free,
            call_ensures(P::default, (), list.msgs),
    {
        CopperList { id: 0, state: CopperListState::Free, msgs: P::default() }
    }
}

impl<P: CopperListTuple> CopperList<P> {
    /// Makes an initialized list out of its parts.
    ///
    /// Lists usually come from a `CuListsManager`; this constructor is for testing.
    pub fn new(id: u32, msgs: P) -> (list: Self)
        ensures
            list == (CopperList { id, state: CopperListState::Initialized, msgs }),
    {
        CopperList { id, state: CopperListState::Initialized, msgs }
    }

    /// Moves the list to `new_state`. Every state can follow every other.
    pub fn change_state(&mut self, new_state: CopperListState)
        ensures
            *final(self) == (CopperList { state: new_state, ..*old(self) }),
    {
        self.state = new_state;
    }

    /// The state that the list is in.
    pub fn get_state(&self) -> (state: CopperListState)
        ensures
            state == self.state,
    {
        self.state
    }
}

impl<P: CopperListTuple> ErasedCuStampedDataSet for CopperList<P> {
    fn cumsgs(&self) -> (msgs: Vec<&dyn ErasedCuStampedData>)
        ensures
            call_ensures(P::cumsgs, (&self.msgs,), msgs),
    {
        self.msgs.cumsgs()
    }

    fn cumsgs_mut(&mut self) -> (msgs: Vec<&mut dyn ErasedCuStampedData>)
        ensures
            final(self).id == old(self).id,
            final(self).state == old(self).state,
            exists|payload: &mut P|
                *payload == old(self).msgs && *final(payload) == final(self).msgs
                    && #[trigger] call_ensures(P::cumsgs_mut, (payload,), msgs),
    {
        self.msgs.cumsgs_mut()
    }
}

} // verus!
