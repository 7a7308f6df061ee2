use vstd::prelude::*;
use crate::list::CopperList;
use crate::payload::CopperListTuple;

verus! {

/// What a queue of preallocated lists amounts to.
pub struct ListsModel<P: CopperListTuple> {
    /// The lists in the queue, the oldest first.
    pub contents: Seq<CopperList<P>>,
    /// The lists that wait to be handed out, in the order in which they will be.
    pub spare: Seq<CopperList<P>>,
    /// The id that the next list gets.
    pub next_id: nat,
}

impl<P: CopperListTuple> ListsModel<P> {
    /// All the lists, in the order in which they lie in memory.
    pub open spec fn slots(self) -> Seq<CopperList<P>> {
        self.contents + self.spare
    }

    /// How many lists there are, in the queue and spare.
    pub open spec fn capacity(self) -> nat {
        self.contents.len() + self.spare.len()
    }

    /// No list is in the queue.
    pub open spec fn is_empty(self) -> bool {
        self.contents.len() == 0
    }

    /// Every list is in the queue.
    pub open spec fn is_full(self) -> bool {
        self.contents.len() == self.capacity()
    }

    /// The queue's contents from the newest list to the oldest.
    pub open spec fn newest_first(self) -> Seq<CopperList<P>> {
        self.contents.reverse()
    }

    /// The list that creation hands out: the first spare one, under a new id.
    pub open spec fn handed_out(self) -> CopperList<P>
        recommends
            !self.is_full(),
    {
        CopperList { id: self.next_id as u32, ..self.spare[0] }
    }

    /// The queue after a creation whose list ends up as `list`.
    pub open spec fn create(self, list: CopperList<P>) -> Self
        recommends
            !self.is_full(),
    {
        ListsModel {
            contents: self.contents.push(list),
            spare: self.spare.drop_first(),
            next_id: self.next_id + 1,
        }
    }

    /// The queue after its newest list left it and ended up as `list`.
    pub open spec fn pop(self, list: CopperList<P>) -> Self
        recommends
            !self.is_empty(),
    {
        ListsModel {
            contents: self.contents.drop_last(),
            spare: seq![list] + self.spare,
            next_id: self.next_id,
        }
    }

    /// The queue without its newest list, if it has one.
    pub open spec fn drop_last(self) -> Self {
        if self.is_empty() {
            self
        } else {
            self.pop(self.contents.last())
        }
    }

    /// The queue with nothing in it.
    pub open spec fn clear(self) -> Self {
        ListsModel { contents: Seq::empty(), spare: self.slots(), next_id: self.next_id }
    }

    /// The queue with its lists replaced by `lists`, one for one.
    pub open spec fn edit(self, lists: Seq<CopperList<P>>) -> Self
        recommends
            lists.len() == self.contents.len(),
    {
        ListsModel { contents: lists, spare: self.spare, next_id: self.next_id }
    }

    /// The queue after one creation for each of `lists`, which the lists end up as.
    pub open spec fn create_all(self, lists: Seq<CopperList<P>>) -> Self
        recommends
            lists.len() <= self.spare.len(),
        decreases lists.len(),
    {
        if lists.len() == 0 {
            self
        } else {
            self.create_all(lists.drop_last()).create(lists.last())
        }
    }

    /// The queue after its newest list was dropped `count` times.
    pub open spec fn drop_newest(self, count: nat) -> Self
        decreases count,
    {
        if count == 0 {
            self
        } else {
            self.drop_newest((count - 1) as nat).drop_last()
        }
    }

    /// The ids in the queue rise from the oldest list to the newest, and lie below the next.
    pub open spec fn ids_in_order(self) -> bool {
        &&& forall|i: int, j: int|
            0 <= i < j < self.contents.len() ==> (#[trigger] self.contents[i]).id < (
            #[trigger] self.contents[j]).id
        &&& forall|i: int|
            0 <= i < self.contents.len() ==> (#[trigger] self.contents[i]).id < self.next_id
    }
}

/// One operation that changes a queue.
pub enum Op<P: CopperListTuple> {
    /// A creation; the list ends up as this one.
    Create(CopperList<P>),
    /// A pop; the list ends up as this one.
    Pop(CopperList<P>),
    /// A removal of the newest list.
    DropLast,
    /// A removal of every list.
    Clear,
    /// A modification of the queued lists, which end up as these.
    Edit(Seq<CopperList<P>>),
}

impl<P: CopperListTuple> ListsModel<P> {
    /// `op` can happen to the queue and does something.
    pub open spec fn allows(self, op: Op<P>) -> bool {
        match op {
            Op::Create(_) => !self.is_full(),
            Op::Pop(_) => !self.is_empty(),
            Op::DropLast => true,
            Op::Clear => true,
            Op::Edit(lists) => lists.len() == self.contents.len(),
        }
    }

    /// The queue after `op`. A creation on a full queue or a pop on an empty one leaves it
    /// as it is.
    pub open spec fn apply(self, op: Op<P>) -> Self {
        if !self.allows(op) {
            self
        } else {
            match op {
                Op::Create(list) => self.create(list),
                Op::Pop(list) => self.pop(list),
                Op::DropLast => self.drop_last(),
                Op::Clear => self.clear(),
                Op::Edit(lists) => self.edit(lists),
            }
        }
    }

    /// The queue after all of `ops`, in order.
    pub open spec fn run(self, ops: Seq<Op<P>>) -> Self
        decreases ops.len(),
    {
        if ops.len() == 0 {
            self
        } else {
            self.run(ops.drop_last()).apply(ops.last())
        }
    }

    /// Whoever gets a list through `op` leaves its id alone.
    pub open spec fn keeps_ids(self, op: Op<P>) -> bool {
        self.allows(op) ==> match op {
            Op::Create(list) => list.id == self.handed_out().id,
            Op::Edit(lists) => forall|i: int|
                0 <= i < lists.len() ==> (#[trigger] lists[i]).id == self.contents[i].id,
            _ => true,
        }
    }

    /// `op` is a creation that hands out a list.
    pub open spec fn hands_out(self, op: Op<P>) -> bool {
        op is Create && !self.is_full()
    }
}

/// A queue is empty exactly when no list is in it, and full exactly when no list is spare. So
/// a queue that just got a list is not empty, and one that just lost a list is not full.
pub proof fn law_empty_and_full<P: CopperListTuple>(queue: ListsModel<P>, list: CopperList<P>)
    ensures
        queue.is_empty() <==> queue.contents.len() == 0,
        queue.is_full() <==> queue.spare.len() == 0,
        queue.capacity() == queue.contents.len() + queue.spare.len(),
        queue.spare.len() > 0 ==> !queue.create(list).is_empty(),
        queue.contents.len() > 0 ==> !queue.pop(list).is_full(),
        queue.clear().is_empty(),
        queue.is_empty() && queue.is_full() ==> queue.capacity() == 0,
{
}

/// A creation adds one list behind the newest and takes it from the front of the spare ones; a
/// pop takes the newest list and puts it at the front of the spare ones. Neither touches any
/// other list.
pub proof fn law_one_list_moves<P: CopperListTuple>(queue: ListsModel<P>, list: CopperList<P>)
    ensures
        queue.spare.len() > 0 ==> {
            let after = queue.create(list);
            &&& after.contents.len() == queue.contents.len() + 1
            &&& after.contents.last() == list
            &&& queue.contents.is_prefix_of(after.contents)
            &&& after.spare.len() == queue.spare.len() - 1
            &&& after.spare.is_suffix_of(queue.spare)
        },
        queue.contents.len() > 0 ==> {
            let after = queue.pop(list);
            &&& after.contents.len() == queue.contents.len() - 1
            &&& after.contents.is_prefix_of(queue.contents)
            &&& after.spare.len() == queue.spare.len() + 1
            &&& after.spare.first() == list
            &&& queue.spare.is_suffix_of(after.spare)
        },
{
    if queue.spare.len() > 0 {
        let after = queue.create(list);
        assert(after.contents.take(queue.contents.len() as int) =~= queue.contents);
        assert(queue.spare.skip(1) =~= after.spare);
    }
    if queue.contents.len() > 0 {
        let after = queue.pop(list);
        assert(queue.contents.take(after.contents.len() as int) =~= after.contents);
        assert(after.spare.skip(1) =~= queue.spare);
    }
}

/// The list that a creation hands out has the next id, and is otherwise the first spare list
/// as it lies there.
pub proof fn law_creation_hands_out_the_first_spare<P: CopperListTuple>(queue: ListsModel<P>)
    requires
        queue.spare.len() > 0,
        queue.next_id <= u32::MAX,
    ensures
        queue.handed_out().id == queue.next_id,
        queue.handed_out().state == queue.spare[0].state,
        queue.handed_out().msgs == queue.spare[0].msgs,
{
}

/// Dropping never lengthens a queue: from an empty one it takes nothing and changes nothing,
/// from any other the newest list alone, which then waits first among the spare ones.
pub proof fn law_drop_last_takes_the_newest_alone<P: CopperListTuple>(queue: ListsModel<P>)
    ensures
        queue.contents.len() == 0 ==> queue.drop_last() == queue,
        queue.contents.len() > 0 ==> queue.drop_last().contents.push(queue.contents.last())
            == queue.contents,
        queue.contents.len() > 0 ==> queue.drop_last().spare == seq![queue.contents.last()]
            + queue.spare,
        queue.drop_last().contents.len() <= queue.contents.len(),
        queue.drop_last().next_id == queue.next_id,
{
    if queue.contents.len() > 0 {
        assert(queue.drop_last().contents.push(queue.contents.last()) =~= queue.contents);
    }
}

/// Dropping the newest list right after a creation brings the queued lists back to what they
/// were, on every queue.
pub proof fn law_drop_last_undoes_create<P: CopperListTuple>(
    queue: ListsModel<P>,
    created: CopperList<P>,
)
    requires
        queue.spare.len() > 0,
    ensures
        queue.create(created).drop_last().contents == queue.contents,
        queue.create(created).drop_last().spare == queue.spare.update(0, created),
        queue.create(created).drop_last().next_id == queue.next_id + 1,
{
    assert(queue.create(created).drop_last().contents =~= queue.contents);
    assert(queue.create(created).drop_last().spare =~= queue.spare.update(0, created));
}

/// Clearing leaves nothing in the queue, makes every list spare in memory order, and clearing
/// again changes nothing.
pub proof fn law_clear_empties<P: CopperListTuple>(queue: ListsModel<P>)
    ensures
        queue.clear().contents.len() == 0,
        queue.clear().spare == queue.contents + queue.spare,
        queue.clear().next_id == queue.next_id,
        queue.clear().clear() == queue.clear(),
{
    assert(queue.clear().clear().spare =~= queue.clear().spare);
}

/// Modifying the queued lists touches nothing but them: the spare lists and the next id stay,
/// so the next creation hands out what it would have handed out anyway. A second modification
/// overrides the first, and one that puts the same lists back changes nothing.
pub proof fn law_modification_stays_in_the_queue<P: CopperListTuple>(
    queue: ListsModel<P>,
    lists: Seq<CopperList<P>>,
    others: Seq<CopperList<P>>,
)
    requires
        lists.len() == queue.contents.len(),
        others.len() == queue.contents.len(),
    ensures
        queue.edit(lists).contents == lists,
        queue.edit(lists).spare == queue.spare,
        queue.edit(lists).next_id == queue.next_id,
        queue.edit(lists).handed_out() == queue.handed_out(),
        queue.edit(lists).slots() == lists + queue.slots().skip(lists.len() as int),
        queue.edit(lists).edit(others) == queue.edit(others),
        queue.edit(queue.contents) == queue,
{
    assert(queue.edit(lists).slots() =~= lists + queue.slots().skip(lists.len() as int));
}

/// The next id counts creations: a creation that succeeds raises it by one, and no other
/// operation touches it.
pub proof fn law_ids_count_creations<P: CopperListTuple>(queue: ListsModel<P>, op: Op<P>)
    ensures
        queue.apply(op).next_id == queue.next_id + if op is Create && queue.spare.len() > 0 {
            1int
        } else {
            0int
        },
{
}

/// A creation on a queue without spare lists and a pop on one without lists are refused, and a
/// refusal changes nothing.
pub proof fn law_refusals_change_nothing<P: CopperListTuple>(
    queue: ListsModel<P>,
    list: CopperList<P>,
)
    ensures
        queue.spare.len() == 0 ==> queue.apply(Op::Create(list)) == queue,
        queue.spare.len() > 0 ==> queue.apply(Op::Create(list)) == queue.create(list),
        queue.contents.len() == 0 ==> queue.apply(Op::Pop(list)) == queue,
        queue.contents.len() > 0 ==> queue.apply(Op::Pop(list)) == queue.pop(list),
        queue.contents.len() == 0 ==> queue.apply(Op::DropLast) == queue,
{
}

/// Popping right after a creation hands out the list that was created, and the queue holds
/// what it held before. Only the id is used up.
pub proof fn law_pop_undoes_create<P: CopperListTuple>(
    queue: ListsModel<P>,
    created: CopperList<P>,
    left: CopperList<P>,
)
    requires
        queue.spare.len() > 0,
    ensures
        queue.create(created).contents.last() == created,
        queue.create(created).pop(left).contents == queue.contents,
        queue.create(created).pop(left).spare == queue.spare.update(0, left),
        queue.create(created).pop(left).next_id == queue.next_id + 1,
{
    assert(queue.create(created).pop(left).contents =~= queue.contents);
    assert(queue.create(created).pop(left).spare =~= queue.spare.update(0, left));
}

/// A creation right after a pop hands out the popped list again, as it was left, under a new
/// id.
pub proof fn law_create_reuses_popped<P: CopperListTuple>(
    queue: ListsModel<P>,
    left: CopperList<P>,
    created: CopperList<P>,
)
    requires
        queue.contents.len() > 0,
    ensures
        !queue.pop(left).is_full(),
        queue.pop(left).handed_out() == (CopperList { id: queue.next_id as u32, ..left }),
        queue.pop(left).create(created).contents == queue.contents.drop_last().push(created),
        queue.pop(left).create(created).spare == queue.spare,
{
    assert(queue.pop(left).create(created).spare =~= queue.spare);
}

/// What a run of creations put into a queue is what the queue then holds, behind what it held
/// before, and read backward the newest creation comes first.
pub proof fn law_creations_read_back<P: CopperListTuple>(
    queue: ListsModel<P>,
    lists: Seq<CopperList<P>>,
)
    requires
        lists.len() <= queue.spare.len(),
    ensures
        queue.create_all(lists).contents == queue.contents + lists,
        queue.create_all(lists).spare == queue.spare.skip(lists.len() as int),
        queue.create_all(lists).next_id == queue.next_id + lists.len(),
        queue.create_all(lists).is_full() <==> lists.len() == queue.spare.len(),
        queue.create_all(lists).newest_first() == lists.reverse() + queue.newest_first(),
    decreases lists.len(),
{
    let all = queue.create_all(lists);
    if lists.len() == 0 {
        assert(queue.contents + lists =~= queue.contents);
        assert(queue.spare.skip(0) =~= queue.spare);
    } else {
        law_creations_read_back(queue, lists.drop_last());
        assert(all.contents =~= queue.contents + lists);
        assert(all.spare =~= queue.spare.skip(lists.len() as int));
    }
    assert(all.newest_first() =~= lists.reverse() + queue.newest_first());
}

/// The two directions of iteration give the same lists in opposite orders.
pub proof fn law_orders_mirror_each_other<P: CopperListTuple>(queue: ListsModel<P>)
    ensures
        queue.newest_first().reverse() == queue.contents,
        queue.newest_first().len() == queue.contents.len(),
        forall|i: int|
            0 <= i < queue.contents.len() ==> #[trigger] queue.newest_first()[i]
                == queue.contents[queue.contents.len() - 1 - i],
        queue.contents.len() > 0 ==> queue.newest_first()[0] == queue.contents.last(),
{
    assert(queue.newest_first().reverse() =~= queue.contents);
}

/// Clearing a queue is the same as dropping its newest list until none is left.
pub proof fn law_clear_drops_every_list<P: CopperListTuple>(queue: ListsModel<P>)
    ensures
        queue.drop_newest(queue.contents.len()) == queue.clear(),
{
    lemma_drop_newest(queue, queue.contents.len());
    assert(queue.drop_newest(queue.contents.len()).contents =~= queue.clear().contents);
    assert(queue.drop_newest(queue.contents.len()).spare =~= queue.clear().spare);
}

proof fn lemma_drop_newest<P: CopperListTuple>(queue: ListsModel<P>, count: nat)
    requires
        count <= queue.contents.len(),
    ensures
        queue.drop_newest(count).contents == queue.contents.take(queue.contents.len() - count),
        queue.drop_newest(count).spare == queue.slots().skip(queue.contents.len() - count),
        queue.drop_newest(count).next_id == queue.next_id,
    decreases count,
{
    if count > 0 {
        lemma_drop_newest(queue, (count - 1) as nat);
    }
    assert(queue.drop_newest(count).contents =~= queue.contents.take(
        queue.contents.len() - count,
    ));
    assert(queue.drop_newest(count).spare =~= queue.slots().skip(queue.contents.len() - count));
}

/// Every list keeps its place in memory, and an operation changes only the lists that it
/// hands out: the one behind the newest for a creation, the newest for a pop, none for a drop
/// or a clearing.
pub proof fn law_lists_stay_in_place<P: CopperListTuple>(
    queue: ListsModel<P>,
    list: CopperList<P>,
)
    ensures
        queue.slots() == queue.contents + queue.spare,
        queue.spare.len() > 0 ==> queue.create(list).slots() == queue.slots().update(
            queue.contents.len() as int,
            list,
        ),
        queue.contents.len() > 0 ==> queue.pop(list).slots() == queue.slots().update(
            queue.contents.len() - 1,
            list,
        ),
        queue.drop_last().slots() == queue.slots(),
        queue.clear().slots() == queue.slots(),
{
    if queue.spare.len() > 0 {
        assert(queue.create(list).slots() =~= queue.slots().update(
            queue.contents.len() as int,
            list,
        ));
    }
    if queue.contents.len() > 0 {
        assert(queue.pop(list).slots() =~= queue.slots().update(queue.contents.len() - 1, list));
    }
    assert(queue.drop_last().slots() =~= queue.slots());
    assert(queue.clear().slots() =~= queue.slots());
}

/// No run of operations changes how many lists there are.
pub proof fn law_capacity_is_fixed<P: CopperListTuple>(queue: ListsModel<P>, ops: Seq<Op<P>>)
    ensures
        queue.run(ops).capacity() == queue.capacity(),
    decreases ops.len(),
{
    if ops.len() > 0 {
        law_capacity_is_fixed(queue, ops.drop_last());
    }
}

/// In any run of operations, a list that is handed out later has a higher id than one that is
/// handed out earlier, as long as the ids fit in 32 bits: no id is given twice.
pub proof fn law_ids_are_unique<P: CopperListTuple>(
    queue: ListsModel<P>,
    ops: Seq<Op<P>>,
    i: int,
    j: int,
)
    requires
        0 <= i < j < ops.len(),
        queue.run(ops.take(i)).hands_out(ops[i]),
        queue.run(ops.take(j)).hands_out(ops[j]),
        queue.run(ops.take(j)).next_id <= u32::MAX,
    ensures
        queue.run(ops.take(i)).handed_out().id < queue.run(ops.take(j)).handed_out().id,
{
    assert(ops.take(i + 1).drop_last() =~= ops.take(i));
    lemma_next_id_rises(queue, ops, i + 1, j);
}

proof fn lemma_next_id_rises<P: CopperListTuple>(
    queue: ListsModel<P>,
    ops: Seq<Op<P>>,
    i: int,
    j: int,
)
    requires
        0 <= i <= j <= ops.len(),
    ensures
        queue.run(ops.take(i)).next_id <= queue.run(ops.take(j)).next_id,
    decreases j,
{
    if i < j {
        lemma_next_id_rises(queue, ops, i, j - 1);
        assert(ops.take(j).drop_last() =~= ops.take(j - 1));
    }
}

/// As long as whoever gets a list leaves its id alone, the ids in the queue stay in order
/// through any run of operations, so that no two lists in the queue share one.
pub proof fn law_ids_stay_in_order<P: CopperListTuple>(queue: ListsModel<P>, ops: Seq<Op<P>>)
    requires
        queue.ids_in_order(),
        forall|k: int|
            0 <= k < ops.len() ==> queue.run(ops.take(k)).keeps_ids(#[trigger] ops[k]),
        queue.run(ops).next_id <= u32::MAX,
    ensures
        queue.run(ops).ids_in_order(),
    decreases ops.len(),
{
    if ops.len() > 0 {
        let shorter = ops.drop_last();
        let last: int = ops.len() - 1;
        assert(shorter =~= ops.take(last));
        assert(ops.take(ops.len() as int) =~= ops);
        lemma_next_id_rises(queue, ops, last, ops.len() as int);
        assert forall|k: int| 0 <= k < shorter.len() implies queue.run(shorter.take(k)).keeps_ids(
            #[trigger] shorter[k],
        ) by {
            assert(shorter.take(k) =~= ops.take(k));
            assert(shorter[k] == ops[k]);
        }
        law_ids_stay_in_order(queue, shorter);
        assert(queue.run(ops.take(last)).keeps_ids(ops[last]));
    }
}

} // verus!
