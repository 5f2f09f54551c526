//! A stack with a capacity fixed at compile time.

use vstd::pervasive::cloned;
use vstd::prelude::*;

verus! {

/// A stack holding between one and `N` elements.
///
/// The bottom element is supplied at creation and never leaves; the
/// top-most element is the one accessible through [`Stack::top`] and
/// [`Stack::top_mut`].
#[derive(Debug)]
pub struct Stack<T, const N: usize> {
    /// The live elements, bottom first.
    items: Vec<T>,
}

/// The elements that remain, bottom first, after the top-most element
/// of `items` is discarded.
pub open spec fn popped<T>(items: Seq<T>) -> Seq<T> {
    items.drop_last()
}

/// The elements, bottom first, after `value` is placed on top of
/// `items`.
pub open spec fn pushed<T>(items: Seq<T>, value: T) -> Seq<T> {
    items.push(value)
}

/// The elements after every value of `values` is placed on top of
/// `items`, in order.
pub open spec fn pushed_all<T>(items: Seq<T>, values: Seq<T>) -> Seq<T> {
    items + values
}

/// The elements after `count` elements are discarded from the top of
/// `items`.
pub open spec fn popped_times<T>(items: Seq<T>, count: nat) -> Seq<T>
    recommends
        count <= items.len(),
    decreases count,
{
    if count == 0 {
        items
    } else {
        popped_times(popped(items), (count - 1) as nat)
    }
}

impl<T, const N: usize> Stack<T, N> {
    /// The invariant of the stack: the bottom element exists and the
    /// capacity is respected.
    pub closed spec fn wf(&self) -> bool {
        1 <= self.items@.len() <= N
    }

    /// The live elements, bottom first; the last one is the top.
    pub closed spec fn view(&self) -> Seq<T> {
        self.items@
    }

    /// A well-formed stack is never empty and never exceeds `N`.
    pub proof fn lemma_bounds(&self)
        requires
            self.wf(),
        ensures
            1 <= self@.len() <= N,
    {
    }

    /// Create a new stack holding only the given initial element.
    pub fn new_with(init: T) -> (stack: Self)
        requires
            N >= 1,
        ensures
            stack.wf(),
            stack@ == seq![init],
    {
        let mut items = Vec::new();
        items.push(init);
        Stack { items }
    }

    /// The number of elements that can still be pushed.
    pub fn remaining(&self) -> (free: usize)
        requires
            self.wf(),
        ensures
            free == N - self@.len(),
    {
        N - self.items.len()
    }

    /// The number of elements on the stack.
    pub fn depth(&self) -> (depth: usize)
        requires
            self.wf(),
        ensures
            depth == self@.len(),
            1 <= depth <= N,
    {
        self.items.len()
    }

    /// Push a new element onto the stack.
    ///
    /// The element is a copy of the currently top-most one. The stack
    /// must not be full; [`Stack::try_push`] checks for it.
    pub fn push(&mut self) where T: Clone
        requires
            old(self).wf(),
            old(self)@.len() < N,
        ensures
            final(self).wf(),
            final(self)@.len() == old(self)@.len() + 1,
            popped(final(self)@) == old(self)@,
            cloned(old(self)@.last(), final(self)@.last()),
    {
        let top = self.items.len() - 1;
        let new = self.items[top].clone();
        self.items.push(new);
    }

    /// Pop the top-most element from the stack.
    ///
    /// The bottom element cannot be popped; [`Stack::try_pop`] checks
    /// for it.
    pub fn pop(&mut self)
        requires
            old(self).wf(),
            old(self)@.len() > 1,
        ensures
            final(self).wf(),
            final(self)@ == popped(old(self)@),
    {
        let _ = self.items.pop();
    }

    /// Push a copy of the top-most element onto the stack, unless the
    /// stack is full.
    ///
    /// A full stack is left as it is, and the refusal is reported: the
    /// stack never grows beyond `N` elements. What follows a refusal is
    /// the caller's decision; nothing can be done with the stack that a
    /// fatal end would have to undo.
    pub fn try_push(&mut self) -> (pushed: bool) where T: Clone
        requires
            old(self).wf(),
        ensures
            final(self).wf(),
            pushed <==> old(self)@.len() < N,
            pushed ==> {
                &&& final(self)@.len() == old(self)@.len() + 1
                &&& popped(final(self)@) == old(self)@
                &&& cloned(old(self)@.last(), final(self)@.last())
            },
            !pushed ==> *final(self) == *old(self),
    {
        if self.items.len() < N {
            self.push();
            true
        } else {
            false
        }
    }

    /// Pop the top-most element from the stack, unless it is the bottom
    /// element.
    ///
    /// A stack that holds only its bottom element is left as it is, and
    /// the refusal is reported: the bottom element never leaves.
    pub fn try_pop(&mut self) -> (popped: bool)
        requires
            old(self).wf(),
        ensures
            final(self).wf(),
            popped <==> old(self)@.len() > 1,
            popped ==> final(self)@ == crate::stack::popped(old(self)@),
            !popped ==> *final(self) == *old(self),
    {
        if self.items.len() > 1 {
            self.pop();
            true
        } else {
            false
        }
    }

    /// The top-most element.
    pub fn top(&self) -> (top: &T)
        requires
            self.wf(),
        ensures
            *top == self@.last(),
    {
        &self.items[self.items.len() - 1]
    }

    /// The top-most element, for modification in place.
    pub fn top_mut(&mut self) -> (top: &mut T)
        requires
            old(self).wf(),
        ensures
            *top == old(self)@.last(),
            final(self).wf(),
            final(self)@ == popped(old(self)@).push(*final(top)),
    {
        let top = self.items.len() - 1;
        &mut self.items[top]
    }
}

impl<T: Default, const N: usize> Default for Stack<T, N> {
    /// A stack holding only the default value of `T`.
    fn default() -> (stack: Self)
        ensures
            N >= 1 ==> stack.wf(),
            stack@.len() == 1,
            call_ensures(T::default, (), stack@[0]),
    {
        let mut items = Vec::new();
        items.push(T::default());
        Stack { items }
    }
}

/// Discarding the top of a stack right after placing a value on it
/// gives back the stack as it was.
pub proof fn lemma_pop_undoes_push<T>(items: Seq<T>, value: T)
    ensures
        popped(pushed(items, value)) == items,
{
}

/// Popping as many elements as were pushed restores the stack as it
/// was before the first push.
pub proof fn lemma_pops_undo_pushes<T>(items: Seq<T>, values: Seq<T>)
    ensures
        popped_times(pushed_all(items, values), values.len()) == items,
    decreases values.len(),
{
    if values.len() > 0 {
        let rest = values.drop_last();
        assert(popped(items + values) =~= items + rest);
        lemma_pops_undo_pushes(items, rest);
    }
}

/// After `values` were pushed onto `items`, popping `count` of them
/// exposes the values in exact reverse order: the top is then the
/// value pushed `count` pushes before the last one, or the top
/// from before the pushes once all of them are gone.
pub proof fn lemma_pops_reverse_pushes<T>(items: Seq<T>, values: Seq<T>, count: nat)
    requires
        items.len() >= 1,
        count <= values.len(),
    ensures
        popped_times(pushed_all(items, values), count) == pushed_all(
            items,
            values.take(values.len() - count),
        ),
        count < values.len() ==> popped_times(pushed_all(items, values), count).last()
            == values[values.len() - count - 1],
        count == values.len() ==> popped_times(pushed_all(items, values), count).last()
            == items.last(),
    decreases count,
{
    if count > 0 {
        let rest = values.drop_last();
        assert(popped(items + values) =~= items + rest);
        lemma_pops_reverse_pushes(items, rest, (count - 1) as nat);
    }
}

} // verus!
