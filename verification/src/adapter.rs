use vstd::prelude::*;

use crate::callbacks::Combine;
use crate::callbacks::MutUpdate;
use crate::callbacks::Visitor;
use crate::callbacks::combine_step;
use crate::callbacks::combine_step_pre;
use crate::callbacks::update_step;
use crate::callbacks::update_step_pre;
use crate::callbacks::visit_step;
use crate::callbacks::visit_step_pre;
use crate::folds::fold_pre_spec;
use crate::folds::fold_spec;
use crate::producer::Producer;

verus! {

/// Wraps a sequence producer and offers three equivalent in-place reductions
/// over it. The wrapper is itself a producer of the same elements, so it
/// composes with anything a producer composes with; each reduction consumes
/// it, so a given adapter is reduced at most once.
pub struct IteratorTester<I: Producer> {
    inner: I,
}

impl<I: Producer> IteratorTester<I> {
    /// Wrap a producer; the adapter will hand out exactly the elements the
    /// producer still holds, in the same order.
    pub fn new(iter: I) -> (r: Self)
        ensures
            r.remaining() == iter.remaining(),
    {
        IteratorTester { inner: iter }
    }
}

impl<I: Producer> Producer for IteratorTester<I> {
    type Item = I::Item;

    closed spec fn remaining(&self) -> Seq<I::Item> {
        self.inner.remaining()
    }

    fn next(&mut self) -> (r: Option<I::Item>) {
        self.inner.next()
    }
}

impl<I: Producer> IteratorTester<I> {
    /// Explicit-loop reduction: pull elements one by one and apply the update
    /// callback to the accumulator in place until the sequence is exhausted.
    /// The result's view is exactly the fold of the remaining elements, in
    /// index order, by the callback's update function.
    pub fn fold_mut<A: View, U: MutUpdate<A, I::Item>>(self, init: A, f: U) -> (r: A)
        requires
            fold_pre_spec(
                self.remaining(),
                init@,
                update_step_pre::<A, I::Item, U>(),
                update_step::<A, I::Item, U>(),
            ),
        ensures
            r@ == fold_spec(self.remaining(), init@, update_step::<A, I::Item, U>()),
    {
        let ghost s0 = self.remaining();
        let ghost a0 = init@;
        let ghost pf = update_step_pre::<A, I::Item, U>();
        let ghost ff = update_step::<A, I::Item, U>();
        let mut it = self;
        let mut upd = f;
        let mut accum = init;
        loop
            invariant
                pf == update_step_pre::<A, I::Item, U>(),
                ff == update_step::<A, I::Item, U>(),
                fold_pre_spec(it.remaining(), accum@, pf, ff),
                fold_spec(it.remaining(), accum@, ff) == fold_spec(s0, a0, ff),
            ensures
                it.remaining().len() == 0,
                fold_spec(it.remaining(), accum@, ff) == fold_spec(s0, a0, ff),
            decreases it.remaining().len(),
        {
            match it.next() {
                Some(x) => {
                    upd.update(&mut accum, x);
                },
                None => {
                    break;
                },
            }
        }
        accum
    }

    /// Value-handoff fold combinator: repeatedly compute
    /// `accumulator = combine(accumulator, element)` until the sequence is
    /// exhausted. The result's view is exactly the fold of the remaining
    /// elements, in index order, by the callback's combining function.
    pub fn fold<B: View, C: Combine<B, I::Item>>(self, init: B, f: C) -> (r: B)
        requires
            fold_pre_spec(
                self.remaining(),
                init@,
                combine_step_pre::<B, I::Item, C>(),
                combine_step::<B, I::Item, C>(),
            ),
        ensures
            r@ == fold_spec(self.remaining(), init@, combine_step::<B, I::Item, C>()),
    {
        let ghost s0 = self.remaining();
        let ghost b0 = init@;
        let ghost pf = combine_step_pre::<B, I::Item, C>();
        let ghost ff = combine_step::<B, I::Item, C>();
        let mut it = self;
        let mut comb = f;
        let mut accum = init;
        loop
            invariant
                pf == combine_step_pre::<B, I::Item, C>(),
                ff == combine_step::<B, I::Item, C>(),
                fold_pre_spec(it.remaining(), accum@, pf, ff),
                fold_spec(it.remaining(), accum@, ff) == fold_spec(s0, b0, ff),
            ensures
                it.remaining().len() == 0,
                fold_spec(it.remaining(), accum@, ff) == fold_spec(s0, b0, ff),
            decreases it.remaining().len(),
        {
            match it.next() {
                Some(x) => {
                    accum = comb.combine(accum, x);
                },
                None => {
                    break;
                },
            }
        }
        accum
    }

    /// Combinator-based reduction: route the in-place update through the
    /// value-handoff `fold` combinator, taking ownership of the accumulator at
    /// each step and handing the mutated accumulator back by value. The
    /// result's view is exactly the same fold as `fold_mut` computes.
    pub fn fold_mut_fold<A: View, U: MutUpdate<A, I::Item>>(self, init: A, f: U) -> (r: A)
        requires
            fold_pre_spec(
                self.remaining(),
                init@,
                update_step_pre::<A, I::Item, U>(),
                update_step::<A, I::Item, U>(),
            ),
        ensures
            r@ == fold_spec(self.remaining(), init@, update_step::<A, I::Item, U>()),
    {
        proof {
            lemma_strategies_agree::<A, I::Item, U>();
        }
        self.fold(init, UpdateCombiner::new(f))
    }

    /// Visitor combinator: hand each element, in order, to the visitor, until
    /// the sequence is exhausted, and return the visitor. The returned
    /// visitor's model is exactly the fold of the remaining elements, in index
    /// order, by the visitor's model transition.
    pub fn for_each<V: Visitor<I::Item>>(self, v: V) -> (r: V)
        requires
            fold_pre_spec(
                self.remaining(),
                v.model(),
                visit_step_pre::<I::Item, V>(),
                visit_step::<I::Item, V>(),
            ),
        ensures
            r.model() == fold_spec(self.remaining(), v.model(), visit_step::<I::Item, V>()),
    {
        let ghost s0 = self.remaining();
        let ghost m0 = v.model();
        let ghost pf = visit_step_pre::<I::Item, V>();
        let ghost ff = visit_step::<I::Item, V>();
        let mut it = self;
        let mut vis = v;
        loop
            invariant
                pf == visit_step_pre::<I::Item, V>(),
                ff == visit_step::<I::Item, V>(),
                fold_pre_spec(it.remaining(), vis.model(), pf, ff),
                fold_spec(it.remaining(), vis.model(), ff) == fold_spec(s0, m0, ff),
            ensures
                it.remaining().len() == 0,
                fold_spec(it.remaining(), vis.model(), ff) == fold_spec(s0, m0, ff),
            decreases it.remaining().len(),
        {
            match it.next() {
                Some(x) => {
                    vis.visit(x);
                },
                None => {
                    break;
                },
            }
        }
        vis
    }

    /// Visitor-based reduction: hold the accumulator in a visitor, let the
    /// visitor apply the in-place update to it on every element, and take the
    /// accumulator back out once the sequence is exhausted. The result's view
    /// is exactly the same fold as `fold_mut` computes.
    pub fn fold_mut_each<A: View, U: MutUpdate<A, I::Item>>(self, init: A, f: U) -> (r: A)
        requires
            fold_pre_spec(
                self.remaining(),
                init@,
                update_step_pre::<A, I::Item, U>(),
                update_step::<A, I::Item, U>(),
            ),
        ensures
            r@ == fold_spec(self.remaining(), init@, update_step::<A, I::Item, U>()),
    {
        proof {
            lemma_strategies_agree::<A, I::Item, U>();
        }
        let vis = UpdateVisitor { accum: init, f };
        let done = self.for_each(vis);
        done.accum
    }
}

/// Adapts an in-place update callback to the `Visitor` shape: the accumulator
/// lives inside the visitor, and each visit applies the update to it in
/// place. Its model is the accumulator's view.
pub struct UpdateVisitor<A, U> {
    /// The accumulator the visitor mutates.
    pub accum: A,
    /// The update callback it applies.
    pub f: U,
}

impl<A: View, T, U: MutUpdate<A, T>> Visitor<T> for UpdateVisitor<A, U> {
    type Model = <A as View>::V;

    open spec fn model(&self) -> <A as View>::V {
        self.accum@
    }

    open spec fn visit_pre(m: <A as View>::V, x: T) -> bool {
        U::update_pre(m, x)
    }

    open spec fn visit_model(m: <A as View>::V, x: T) -> <A as View>::V {
        U::update_spec(m, x)
    }

    fn visit(&mut self, x: T) {
        self.f.update(&mut self.accum, x);
    }
}

/// Adapts an in-place update callback to the value-handoff `Combine` shape:
/// it takes ownership of the accumulator, applies the update in place, and
/// hands the accumulator back by value.
pub struct UpdateCombiner<U> {
    f: U,
}

impl<U> UpdateCombiner<U> {
    /// Wrap an update callback.
    pub fn new(f: U) -> Self {
        UpdateCombiner { f }
    }
}

impl<A: View, T, U: MutUpdate<A, T>> Combine<A, T> for UpdateCombiner<U> {
    open spec fn combine_pre(b: <A as View>::V, x: T) -> bool {
        U::update_pre(b, x)
    }

    open spec fn combine_spec(b: <A as View>::V, x: T) -> <A as View>::V {
        U::update_spec(b, x)
    }

    fn combine(&mut self, b: A, x: T) -> (r: A) {
        let mut accum = b;
        self.f.update(&mut accum, x);
        accum
    }
}

/// Equivalence of the three reduction strategies: for one update callback,
/// the step functions and step preconditions that the contracts of
/// `fold_mut`, `fold_mut_fold` (through `UpdateCombiner`) and `fold_mut_each`
/// (through `UpdateVisitor`) fold by are one and the same, so on the same
/// sequence, the same initial accumulator and the same callback, the three
/// reductions are owed the same result.
pub proof fn lemma_strategies_agree<A: View, T, U: MutUpdate<A, T>>()
    ensures
        combine_step::<A, T, UpdateCombiner<U>>() == update_step::<A, T, U>(),
        combine_step_pre::<A, T, UpdateCombiner<U>>() == update_step_pre::<A, T, U>(),
        visit_step::<T, UpdateVisitor<A, U>>() == update_step::<A, T, U>(),
        visit_step_pre::<T, UpdateVisitor<A, U>>() == update_step_pre::<A, T, U>(),
{
    assert(combine_step::<A, T, UpdateCombiner<U>>() =~= update_step::<A, T, U>());
    assert(combine_step_pre::<A, T, UpdateCombiner<U>>() =~= update_step_pre::<A, T, U>());
    assert(visit_step::<T, UpdateVisitor<A, U>>() =~= update_step::<A, T, U>());
    assert(visit_step_pre::<T, UpdateVisitor<A, U>>() =~= update_step_pre::<A, T, U>());
}

} // verus!
