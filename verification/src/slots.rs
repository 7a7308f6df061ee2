//! Slices and sequences of slots: how they are lent out and how they change.

use vstd::prelude::*;

verus! {

/// Replacing the slot behind the first `len` ones appends to those and takes from the rest.
pub(crate) proof fn lemma_replace_first_spare<T>(slots: Seq<T>, len: int)
    requires
        0 <= len < slots.len(),
    ensures
        forall|x: T|
            (#[trigger] slots.update(len, x)).take(len + 1) == slots.take(len).push(x)
                && slots.update(len, x).skip(len + 1) == slots.skip(len).drop_first(),
{
    assert forall|x: T|
        (#[trigger] slots.update(len, x)).take(len + 1) == slots.take(len).push(x)
            && slots.update(len, x).skip(len + 1) == slots.skip(len).drop_first() by {
        assert(slots.update(len, x).take(len + 1) =~= slots.take(len).push(x));
        assert(slots.update(len, x).skip(len + 1) =~= slots.skip(len).drop_first());
    }
}

/// Replacing the last of the first `len + 1` slots takes from those and prepends to the rest.
pub(crate) proof fn lemma_replace_last<T>(slots: Seq<T>, len: int)
    requires
        0 <= len < slots.len(),
    ensures
        forall|x: T|
            (#[trigger] slots.update(len, x)).take(len) == slots.take(len + 1).drop_last()
                && slots.update(len, x).skip(len) == seq![x] + slots.skip(len + 1),
{
    assert forall|x: T|
        (#[trigger] slots.update(len, x)).take(len) == slots.take(len + 1).drop_last()
            && slots.update(len, x).skip(len) == seq![x] + slots.skip(len + 1) by {
        assert(slots.update(len, x).take(len) =~= slots.take(len + 1).drop_last());
        assert(slots.update(len, x).skip(len) =~= seq![x] + slots.skip(len + 1));
    }
}

/// A concatenation splits into its two parts.
pub(crate) proof fn lemma_parts_of_sum<T>(tail: Seq<T>)
    ensures
        forall|head: Seq<T>|
            (#[trigger] (head + tail)).take(head.len() as int) == head && (head + tail).skip(
                head.len() as int,
            ) == tail,
{
    assert forall|head: Seq<T>|
        (#[trigger] (head + tail)).take(head.len() as int) == head && (head + tail).skip(
            head.len() as int,
        ) == tail by {
        assert((head + tail).take(head.len() as int) =~= head);
        assert((head + tail).skip(head.len() as int) =~= tail);
    }
}

/// One step forward on a ring of `n` slots.
pub(crate) proof fn lemma_step_forward(index: int, n: int)
    requires
        0 <= index < n,
    ensures
        (index + 1) % n == if index + 1 == n {
            0
        } else {
            index + 1
        },
{
    if index + 1 == n {
        vstd::arithmetic::div_mod::lemma_mod_self_0(n);
    } else {
        vstd::arithmetic::div_mod::lemma_small_mod((index + 1) as nat, n as nat);
    }
}

/// Borrows the items of a slice one by one, the last first.
pub(crate) fn borrow_each_backward<T>(slice: &mut [T]) -> (items: Vec<&mut T>)
    ensures
        items@.len() == old(slice)@.len(),
        final(slice)@.len() == old(slice)@.len(),
        forall|i: int|
            0 <= i < items@.len() ==> *(#[trigger] items@[i]) == old(slice)@[items@.len() - 1 - i],
        forall|i: int|
            0 <= i < items@.len() ==> final(slice)@[items@.len() - 1 - i] == *final(#[trigger] items@[i]),
{
    let ghost lent = slice;
    let ghost whole = slice@;
    let mut items: Vec<&mut T> = Vec::new();
    let mut rest = slice;
    while rest.len() > 0
        invariant
            rest@.len() + items@.len() == whole.len(),
            rest@ == whole.take(rest@.len() as int),
            forall|i: int| 0 <= i < items@.len() ==> *(#[trigger] items@[i]) == whole[whole.len() - 1 - i],
            final(lent)@.len() == final(rest)@.len() + items@.len(),
            final(lent)@.take(final(rest)@.len() as int) == final(rest)@,
            forall|i: int|
                0 <= i < items@.len() ==> final(lent)@[final(lent)@.len() - 1 - i] == *final(#[trigger] items@[i]),
        decreases rest@.len(),
    {
        let ghost before = rest;
        let (front, back) = rest.split_at_mut(rest.len() - 1);
        let ghost front_part = front;
        let ghost back_part = back;
        if let Some(item) = back.last_mut() {
            items.push(item);
        }
        proof {
            assert(final(before)@ == final(front_part)@ + final(back_part)@);
            assert(final(before)@.last() == *final(items@.last()));
            assert(final(lent)@[final(before)@.len() - 1] == final(before)@.last());
        }
        rest = front;
    }
    items
}

/// Borrows the items of a slice one by one, the first first.
pub(crate) fn borrow_each_forward<T>(slice: &mut [T]) -> (items: Vec<&mut T>)
    ensures
        items@.len() == old(slice)@.len(),
        final(slice)@.len() == old(slice)@.len(),
        forall|i: int| 0 <= i < items@.len() ==> *(#[trigger] items@[i]) == old(slice)@[i],
        forall|i: int|
            0 <= i < items@.len() ==> final(slice)@[i] == *final(#[trigger] items@[i]),
{
    let ghost lent = slice;
    let ghost whole = slice@;
    let mut items: Vec<&mut T> = Vec::new();
    let mut rest = slice;
    while rest.len() > 0
        invariant
            rest@.len() + items@.len() == whole.len(),
            rest@ == whole.skip(items@.len() as int),
            forall|i: int| 0 <= i < items@.len() ==> *(#[trigger] items@[i]) == whole[i],
            final(lent)@.len() == final(rest)@.len() + items@.len(),
            final(lent)@.skip(items@.len() as int) == final(rest)@,
            forall|i: int|
                0 <= i < items@.len() ==> final(lent)@[i] == *final(#[trigger] items@[i]),
        decreases rest@.len(),
    {
        let ghost before = rest;
        let (front, back) = rest.split_at_mut(1);
        let ghost front_part = front;
        let ghost back_part = back;
        if let Some(item) = front.first_mut() {
            items.push(item);
        }
        proof {
            assert(final(before)@ == final(front_part)@ + final(back_part)@);
            assert(final(before)@[0] == *final(items@.last()));
            assert(final(lent)@[items@.len() - 1] == final(before)@[0]);
            assert(final(lent)@.skip(items@.len() as int) =~= final(before)@.skip(1));
            assert(final(before)@.skip(1) =~= final(back_part)@);
        }
        rest = back;
    }
    items
}

} // verus!
