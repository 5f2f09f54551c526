//! A bounded stack of transforms with an activation callback.

use vstd::pervasive::cloned;
use vstd::prelude::*;

use crate::stack::popped;
use crate::stack::Stack;

verus! {

/// A stack of matrices.
///
/// Whenever the top-most matrix changes because of a push or a pop,
/// the new top is handed to the loading function supplied at creation.
pub struct MatrixStack<M, const N: usize, L> {
    /// The matrix stack.
    stack: Stack<M, N>,
    /// The function used for actually loading a matrix.
    load_matrix: L,
    /// Every matrix handed to `load_matrix` so far, oldest first.
    loaded: Ghost<Seq<M>>,
}

impl<M, const N: usize, L: Fn(&M)> MatrixStack<M, N, L> {
    /// The invariant of the matrix stack: the underlying stack is well
    /// formed, the loading function accepts every matrix, and the most
    /// recently loaded matrix is the current top.
    pub closed spec fn wf(&self) -> bool {
        &&& self.stack.wf()
        &&& forall|m: &M| call_requires(self.load_matrix, (m,))
        &&& self.loaded@.len() >= 1
        &&& self.loaded@.last() == self.stack@.last()
    }

    /// The matrices on the stack, bottom first; the last one is active.
    pub closed spec fn view(&self) -> Seq<M> {
        self.stack@
    }

    /// The loading function.
    pub closed spec fn loader(&self) -> L {
        self.load_matrix
    }

    /// Every matrix handed to the loading function so far, oldest
    /// first.
    pub closed spec fn loaded(&self) -> Seq<M> {
        self.loaded@
    }

    /// A well-formed matrix stack holds between one and `N` matrices,
    /// and the matrix loaded last is the one on top.
    pub proof fn lemma_active_is_top(&self)
        requires
            self.wf(),
        ensures
            1 <= self@.len() <= N,
            self.loaded().len() >= 1,
            self.loaded().last() == self@.last(),
    {
        self.stack.lemma_bounds();
    }

    /// Create a new matrix stack.
    ///
    /// The provided function is used for "loading" the new matrix after
    /// a push or pop; it is handed the initial matrix right away.
    pub fn new(load_matrix: L) -> (stack: Self) where M: Default
        requires
            N >= 1,
            forall|m: &M| call_requires(load_matrix, (m,)),
        ensures
            stack.wf(),
            stack.loader() == load_matrix,
            stack@.len() == 1,
            call_ensures(M::default, (), stack@[0]),
            stack.loaded() == stack@,
            call_ensures(load_matrix, (&stack@[0],), ()),
    {
        let default = M::default();
        load_matrix(&default);
        let ghost first = default;
        MatrixStack {
            stack: Stack::new_with(default),
            load_matrix,
            loaded: Ghost(Seq::empty().push(first)),
        }
    }

    /// Push a new matrix onto the stack.
    ///
    /// The matrix initially is a copy of the current top most one, but
    /// `f` is able to modify it before it will be loaded. The stack must
    /// not be full; [`MatrixStack::try_push`] checks for it.
    pub fn push<F: FnOnce(&mut M)>(&mut self, f: F) where M: Clone
        requires
            old(self).wf(),
            old(self)@.len() < N,
            forall|m: &mut M| cloned(old(self)@.last(), *m) ==> call_requires(f, (m,)),
        ensures
            final(self).wf(),
            final(self).loader() == old(self).loader(),
            final(self)@.len() == old(self)@.len() + 1,
            popped(final(self)@) == old(self)@,
            exists|m: &mut M|
                cloned(old(self)@.last(), *m) && *final(m) == final(self)@.last() && call_ensures(
                    f,
                    (m,),
                    (),
                ),
            call_ensures(final(self).loader(), (&final(self)@.last(),), ()),
            final(self).loaded() == old(self).loaded().push(final(self)@.last()),
    {
        self.stack.push();
        let slot = self.stack.top_mut();
        f(slot);
        let top = self.stack.top();
        (self.load_matrix)(top);
        proof {
            self.loaded@ = self.loaded@.push(*top);
        }
    }

    /// Pop the currently active matrix and load the new top-most one.
    ///
    /// The bottom matrix cannot be popped; [`MatrixStack::try_pop`]
    /// checks for it.
    pub fn pop(&mut self)
        requires
            old(self).wf(),
            old(self)@.len() > 1,
        ensures
            final(self).wf(),
            final(self).loader() == old(self).loader(),
            final(self)@ == popped(old(self)@),
            call_ensures(final(self).loader(), (&final(self)@.last(),), ()),
            final(self).loaded() == old(self).loaded().push(final(self)@.last()),
    {
        self.stack.pop();
        let top = self.stack.top();
        (self.load_matrix)(top);
        proof {
            self.loaded@ = self.loaded@.push(*top);
        }
    }

    /// Push a new matrix onto the stack and load it, unless the stack is
    /// full.
    ///
    /// On a full stack nothing happens: the stack and what was loaded
    /// stay as they are, neither `f` nor the loading function is called,
    /// and `f` is handed back.
    pub fn try_push<F: FnOnce(&mut M)>(&mut self, f: F) -> (refused: Option<F>) where M: Clone
        requires
            old(self).wf(),
            forall|m: &mut M| cloned(old(self)@.last(), *m) ==> call_requires(f, (m,)),
        ensures
            final(self).wf(),
            final(self).loader() == old(self).loader(),
            refused is None <==> old(self)@.len() < N,
            match refused {
                None => {
                    &&& final(self)@.len() == old(self)@.len() + 1
                    &&& popped(final(self)@) == old(self)@
                    &&& exists|m: &mut M|
                        cloned(old(self)@.last(), *m) && *final(m) == final(self)@.last()
                            && call_ensures(f, (m,), ())
                    &&& call_ensures(final(self).loader(), (&final(self)@.last(),), ())
                    &&& final(self).loaded() == old(self).loaded().push(final(self)@.last())
                },
                Some(unused) => {
                    &&& unused == f
                    &&& final(self)@ == old(self)@
                    &&& final(self).loaded() == old(self).loaded()
                },
            },
    {
        if self.stack.remaining() > 0 {
            self.push(f);
            None
        } else {
            Some(f)
        }
    }

    /// Pop the currently active matrix and load the new top-most one,
    /// unless the active matrix is the bottom one.
    ///
    /// On a stack that holds only its bottom matrix nothing happens: the
    /// stack and what was loaded stay as they are, and the loading
    /// function is not called.
    pub fn try_pop(&mut self) -> (popped: bool)
        requires
            old(self).wf(),
        ensures
            final(self).wf(),
            final(self).loader() == old(self).loader(),
            popped <==> old(self)@.len() > 1,
            popped ==> {
                &&& final(self)@ == crate::stack::popped(old(self)@)
                &&& call_ensures(final(self).loader(), (&final(self)@.last(),), ())
                &&& final(self).loaded() == old(self).loaded().push(final(self)@.last())
            },
            !popped ==> final(self)@ == old(self)@ && final(self).loaded() == old(self).loaded(),
    {
        if self.stack.depth() > 1 {
            self.pop();
            true
        } else {
            false
        }
    }

    /// The number of matrices that can still be pushed.
    pub fn remaining(&self) -> (free: usize)
        requires
            self.wf(),
        ensures
            free == N - self@.len(),
    {
        self.stack.remaining()
    }

    /// The number of matrices on the stack.
    pub fn depth(&self) -> (depth: usize)
        requires
            self.wf(),
        ensures
            depth == self@.len(),
            1 <= depth <= N,
    {
        proof {
            self.stack.lemma_bounds();
        }
        N - self.stack.remaining()
    }

    /// The currently active matrix.
    pub fn top(&self) -> (top: &M)
        requires
            self.wf(),
        ensures
            *top == self@.last(),
    {
        self.stack.top()
    }
}

} // verus!
