use vstd::prelude::*;
use vstd::std_specs::iter::IteratorSpec;
use crate::list::CopperList;
use crate::model::ListsModel;
use crate::payload::CopperListTuple;
use crate::payload::CuListZeroedInit;
use crate::slots;
use crate::state::CopperListState;

verus! {

/// The queue's lists from the newest to the oldest.
pub type Iter<'a, T> = std::iter::Rev<std::slice::Iter<'a, T>>;

/// The queue's lists from the oldest to the newest.
pub type AscIter<'a, T> = std::slice::Iter<'a, T>;

/// The queue's lists from the newest to the oldest, open to modification.
pub type IterMut<'a, T> = Vec<&'a mut T>;

/// The queue's lists from the oldest to the newest, open to modification.
pub type AscIterMut<'a, T> = Vec<&'a mut T>;

/// Maintains the entire memory that one processing loop needs for the communication
/// between its tasks.
///
/// `P`, the payload, is typically a tuple of the messages that the tasks exchange. `N` is
/// the largest number of copper lists that can be in flight.
pub struct CuListsManager<P: CopperListTuple, const N: usize> {
    data: Vec<CopperList<P>>,
    length: usize,
    insertion_index: usize,
    current_cl_id: u32,
}

impl<P: CopperListTuple, const N: usize> View for CuListsManager<P, N> {
    type V = ListsModel<P>;

    closed spec fn view(&self) -> ListsModel<P> {
        ListsModel {
            contents: self.data@.take(self.length as int),
            spare: self.data@.skip(self.length as int),
            next_id: self.current_cl_id as nat,
        }
    }
}

impl<P: CopperListTuple + CuListZeroedInit, const N: usize> Default for CuListsManager<P, N> {
    /// The same as `new`.
    fn default() -> (manager: Self)
        ensures
            call_ensures(Self::new, (), manager),
    {
        Self::new()
    }
}

impl<P: CopperListTuple, const N: usize> CuListsManager<P, N> {
    /// The lists in the queue fill the memory from its start, and the insertion index
    /// stands behind the newest of them, or at the start where that is the end.
    pub closed spec fn layout_ok(&self) -> bool {
        &&& self.data@.len() == N
        &&& self.length <= N
        &&& self.insertion_index == if self.length == N {
            0
        } else {
            self.length
        }
    }

    /// What every constructor establishes and every method keeps.
    pub open spec fn wf(&self) -> bool {
        &&& self.layout_ok()
        &&& self@.capacity() == N
        &&& self@.next_id <= u32::MAX
    }

    /// Allocates all the lists, each with a zeroed payload fixed up by `init_zeroed`.
    pub fn new() -> (manager: Self) where P: CuListZeroedInit
        ensures
            manager.wf(),
            manager@.is_empty(),
            manager@.contents.len() == 0,
            manager@.spare.len() == N,
            manager@.next_id == 0,
            forall|i: int|
                0 <= i < N ==> {
                    let list = #[trigger] manager@.spare[i];
                    &&& list.id == 0
                    &&& list.state == CopperListState::Free
                    &&& exists|payload: &mut P|
                        call_ensures(P::zeroed, (), *payload) && *final(payload) == list.msgs
                            && #[trigger] call_ensures(P::init_zeroed, (payload,), ())
                },
    {
        let mut data: Vec<CopperList<P>> = Vec::with_capacity(N);
        for i in 0..N
            invariant
                data@.len() == i,
                forall|j: int|
                    0 <= j < i ==> {
                        let list = #[trigger] data@[j];
                        &&& list.id == 0
                        &&& list.state == CopperListState::Free
                        &&& call_ensures(P::zeroed, (), list.msgs)
                    },
        {
            data.push(CopperList { id: 0, state: CopperListState::Free, msgs: P::zeroed() });
        }
        let mut manager = CuListsManager {
            data,
            length: 0,
            insertion_index: 0,
            current_cl_id: 0,
        };

        for i in 0..N
            invariant
                manager.layout_ok(),
                manager.length == 0,
                manager.current_cl_id == 0,
                forall|j: int|
                    i <= j < N ==> {
                        let list = #[trigger] manager.data@[j];
                        &&& list.id == 0
                        &&& list.state == CopperListState::Free
                        &&& call_ensures(P::zeroed, (), list.msgs)
                    },
                forall|j: int|
                    0 <= j < i ==> {
                        let list = #[trigger] manager.data@[j];
                        &&& list.id == 0
                        &&& list.state == CopperListState::Free
                        &&& exists|payload: &mut P|
                            call_ensures(P::zeroed, (), *payload) && *final(payload) == list.msgs
                                && #[trigger] call_ensures(P::init_zeroed, (payload,), ())
                    },
        {
            manager.data[i].msgs.init_zeroed();
        }
        manager
    }

    /// The current number of lists in the queue.
    pub fn len(&self) -> (len: usize)
        requires
            self.wf(),
        ensures
            len == self@.contents.len(),
    {
        self.length
    }

    /// Whether the queue contains no lists.
    pub fn is_empty(&self) -> (empty: bool)
        requires
            self.wf(),
        ensures
            empty == (self@.contents.len() == 0),
            empty == self@.is_empty(),
    {
        self.length == 0
    }

    /// Whether the queue contains all the lists.
    pub fn is_full(&self) -> (full: bool)
        requires
            self.wf(),
        ensures
            full == (self@.contents.len() == N),
            full == (self@.spare.len() == 0),
            full == self@.is_full(),
    {
        N == self.len()
    }

    /// Takes all lists out of the queue. They keep what they hold.
    pub fn clear(&mut self)
        requires
            old(self).wf(),
        ensures
            final(self).wf(),
            final(self)@.contents.len() == 0,
            final(self)@.spare == old(self)@.contents + old(self)@.spare,
            final(self)@.next_id == old(self)@.next_id,
            final(self)@ == old(self)@.clear(),
    {
        self.insertion_index = 0;
        self.length = 0;
        assert(self@.spare =~= old(self)@.slots());
        assert(self@.contents =~= Seq::empty());
    }

    /// Puts the next list into the queue under a new id and hands it out, unless the queue
    /// is full.
    ///
    /// The list has the state and the messages that its last user left in it.
    pub fn create(&mut self) -> (created: Option<&mut CopperList<P>>)
        requires
            old(self).wf(),
            old(self)@.contents.len() == N || old(self)@.next_id < u32::MAX,
        ensures
            final(self).wf(),
            match created {
                None => old(self)@.is_full() && *final(self) == *old(self),
                Some(list) => !old(self)@.is_full() && *list == old(self)@.handed_out()
                    && final(self)@ == old(self)@.create(*final(list)),
            },
            created is None <==> old(self)@.contents.len() == N,
            created matches Some(list) ==> {
                &&& list.id == old(self)@.next_id
                &&& list.state == old(self)@.spare[0].state
                &&& list.msgs == old(self)@.spare[0].msgs
                &&& final(self)@.contents == old(self)@.contents.push(*final(list))
                &&& final(self)@.spare == old(self)@.spare.skip(1)
                &&& final(self)@.next_id == old(self)@.next_id + 1
            },
    {
        if self.is_full() {
            return None;
        }
        proof {
            slots::lemma_replace_first_spare(self.data@, self.length as int);
            slots::lemma_step_forward(self.length as int, N as int);
        }
        let result = &mut self.data[self.insertion_index];
        self.insertion_index = (self.insertion_index + 1) % N;
        self.length += 1;

        // Each list gets an id of its own, so that it can be tracked across its lifetime.
        result.id = self.current_cl_id;
        self.current_cl_id += 1;

        Some(result)
    }

    /// The newest list in the queue, if there is one.
    pub fn peek(&self) -> (newest: Option<&CopperList<P>>)
        requires
            self.wf(),
        ensures
            match newest {
                None => self@.is_empty(),
                Some(list) => !self@.is_empty() && *list == self@.contents.last(),
            },
            newest is None <==> self@.contents.len() == 0,
    {
        if self.length == 0 {
            return None;
        }
        let index: usize = if self.insertion_index == 0 {
            N - 1
        } else {
            self.insertion_index - 1
        };
        Some(&self.data[index])
    }

    /// Takes the newest list out of the queue, if there is one.
    pub fn drop_last(&mut self)
        requires
            old(self).wf(),
        ensures
            final(self).wf(),
            old(self)@.contents.len() == 0 ==> *final(self) == *old(self),
            old(self)@.contents.len() > 0 ==> {
                &&& final(self)@.contents == old(self)@.contents.drop_last()
                &&& final(self)@.spare == seq![old(self)@.contents.last()] + old(self)@.spare
                &&& final(self)@.next_id == old(self)@.next_id
            },
            final(self)@ == old(self)@.drop_last(),
    {
        if self.length == 0 {
            return;
        }
        if self.insertion_index == 0 {
            self.insertion_index = N - 1;
        } else {
            self.insertion_index -= 1;
        }
        self.length -= 1;
        assert(self@.contents =~= old(self)@.drop_last().contents);
        assert(self@.spare =~= old(self)@.drop_last().spare);
    }

    /// Takes the newest list out of the queue and hands it out, if there is one.
    ///
    /// It stays in the queue's memory, as the list that the next creation hands out.
    pub fn pop(&mut self) -> (popped: Option<&mut CopperList<P>>)
        requires
            old(self).wf(),
        ensures
            final(self).wf(),
            match popped {
                None => old(self)@.is_empty() && *final(self) == *old(self),
                Some(list) => !old(self)@.is_empty() && *list == old(self)@.contents.last()
                    && final(self)@ == old(self)@.pop(*final(list)),
            },
            popped is None <==> old(self)@.contents.len() == 0,
            popped matches Some(list) ==> {
                &&& final(self)@.contents == old(self)@.contents.drop_last()
                &&& final(self)@.spare == seq![*final(list)] + old(self)@.spare
                &&& final(self)@.next_id == old(self)@.next_id
            },
    {
        if self.length == 0 {
            return None;
        }
        if self.insertion_index == 0 {
            self.insertion_index = N - 1;
        } else {
            self.insertion_index -= 1;
        }
        self.length -= 1;
        proof {
            slots::lemma_replace_last(self.data@, self.length as int);
        }
        Some(&mut self.data[self.insertion_index])
    }

    /// Iterates over the queue's contents, from the newest list to the oldest.
    pub fn iter(&self) -> (lists: Iter<'_, CopperList<P>>)
        requires
            self.wf(),
        ensures
            lists.obeys_prophetic_iter_laws(),
            lists.decrease() is Some,
            lists.initial_value_relation(&lists),
            lists.remaining() == self@.newest_first().as_ref(),
            lists.remaining() == self@.contents.reverse().as_ref(),
    {
        let (queued, _) = self.data.as_slice().split_at(self.length);
        queued.iter().rev()
    }

    /// Iterates over the queue's contents, from the oldest list to the newest.
    pub fn asc_iter(&self) -> (lists: AscIter<'_, CopperList<P>>)
        requires
            self.wf(),
        ensures
            lists.obeys_prophetic_iter_laws(),
            lists.decrease() is Some,
            lists.initial_value_relation(&lists),
            lists.remaining() == self@.contents.as_ref(),
    {
        let (queued, _) = self.data.as_slice().split_at(self.length);
        queued.iter()
    }

    /// Borrows the queue's contents for modification, from the newest list to the oldest.
    pub fn iter_mut(&mut self) -> (lists: IterMut<'_, CopperList<P>>)
        requires
            old(self).wf(),
        ensures
            final(self).wf(),
            lists@.len() == old(self)@.contents.len(),
            forall|i: int|
                0 <= i < lists@.len() ==> *(#[trigger] lists@[i]) == old(self)@.newest_first()[i],
            forall|i: int|
                0 <= i < lists@.len() ==> *(#[trigger] lists@[i]) == old(
                    self,
                )@.contents[lists@.len() - 1 - i],
            final(self)@ == old(self)@.edit(final(self)@.contents),
            final(self)@.spare == old(self)@.spare,
            final(self)@.next_id == old(self)@.next_id,
            final(self)@.contents.len() == old(self)@.contents.len(),
            forall|i: int|
                0 <= i < lists@.len() ==> final(self)@.newest_first()[i] == *final(
                #[trigger] lists@[i]),
            forall|i: int|
                0 <= i < lists@.len() ==> final(self)@.contents[lists@.len() - 1 - i] == *final(
                #[trigger] lists@[i]),
    {
        proof {
            slots::lemma_parts_of_sum(self@.spare);
        }
        let (queued, _) = self.data.as_mut_slice().split_at_mut(self.length);
        slots::borrow_each_backward(queued)
    }

    /// Borrows the queue's contents for modification, from the oldest list to the newest.
    pub fn asc_iter_mut(&mut self) -> (lists: AscIterMut<'_, CopperList<P>>)
        requires
            old(self).wf(),
        ensures
            final(self).wf(),
            lists@.len() == old(self)@.contents.len(),
            forall|i: int|
                0 <= i < lists@.len() ==> *(#[trigger] lists@[i]) == old(self)@.contents[i],
            final(self)@ == old(self)@.edit(final(self)@.contents),
            final(self)@.spare == old(self)@.spare,
            final(self)@.next_id == old(self)@.next_id,
            final(self)@.contents.len() == old(self)@.contents.len(),
            forall|i: int|
                0 <= i < lists@.len() ==> final(self)@.contents[i] == *final(#[trigger] lists@[i]),
    {
        proof {
            slots::lemma_parts_of_sum(self@.spare);
        }
        let (queued, _) = self.data.as_mut_slice().split_at_mut(self.length);
        slots::borrow_each_forward(queued)
    }

    /// The parts that a debug print shows: all the lists in memory order, the length of the
    /// queue and the index of the list that comes next.
    pub fn debug_parts(&self) -> (parts: (&[CopperList<P>], usize, usize))
        requires
            self.wf(),
        ensures
            parts.0@ == self@.slots(),
            parts.0@ == self@.contents + self@.spare,
            parts.1 == self@.contents.len(),
            parts.2 == if self@.contents.len() == N {
                0
            } else {
                self@.contents.len()
            },
    {
        assert(self.data@ =~= self@.slots());
        (self.data.as_slice(), self.length, self.insertion_index)
    }
}

} // verus!
