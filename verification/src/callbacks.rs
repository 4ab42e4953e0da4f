use vstd::prelude::*;

verus! {

/// An in-place update callback: given a mutable reference to the accumulator
/// and an owned element, it mutates the accumulator and returns nothing. Its
/// effect on the accumulator's view is the pure function `update_spec`, owed
/// whenever `update_pre` admits the pair; the callback itself may carry state
/// of its own, which the contract leaves free.
pub trait MutUpdate<A: View, T>: Sized {
    /// The accumulator views and elements this callback accepts.
    spec fn update_pre(a: <A as View>::V, x: T) -> bool;

    /// What one update does to the accumulator's view.
    spec fn update_spec(a: <A as View>::V, x: T) -> <A as View>::V;

    /// Apply the update to `a` in place.
    fn update(&mut self, a: &mut A, x: T)
        requires
            Self::update_pre(old(a)@, x),
        ensures
            final(a)@ == Self::update_spec(old(a)@, x),
    ;
}

/// A value-style combining callback: it takes the accumulator by value and
/// hands the combined accumulator back by value.
pub trait Combine<B: View, T>: Sized {
    /// The accumulator views and elements this callback accepts.
    spec fn combine_pre(b: <B as View>::V, x: T) -> bool;

    /// What one combining step does to the accumulator's view.
    spec fn combine_spec(b: <B as View>::V, x: T) -> <B as View>::V;

    /// Combine `b` with `x`, returning the new accumulator.
    fn combine(&mut self, b: B, x: T) -> (r: B)
        requires
            Self::combine_pre(b@, x),
        ensures
            r@ == Self::combine_spec(b@, x),
    ;
}

/// A visitor callback: it is handed each element in turn and returns nothing.
/// Its observable state is the model `model`, and one visit transforms that
/// model by the pure function `visit_model`; state outside the model is left
/// free.
pub trait Visitor<T>: Sized {
    type Model;

    /// The observable state of the visitor.
    spec fn model(&self) -> Self::Model;

    /// The models and elements this visitor accepts.
    spec fn visit_pre(m: Self::Model, x: T) -> bool;

    /// What visiting one element does to the model.
    spec fn visit_model(m: Self::Model, x: T) -> Self::Model;

    /// Visit one element.
    fn visit(&mut self, x: T)
        requires
            Self::visit_pre(old(self).model(), x),
        ensures
            final(self).model() == Self::visit_model(old(self).model(), x),
    ;
}

/// The step function of a fold driven by an in-place update callback.
pub open spec fn update_step<A: View, T, U: MutUpdate<A, T>>() -> spec_fn(
    <A as View>::V,
    T,
) -> <A as View>::V {
    |a: <A as View>::V, x: T| U::update_spec(a, x)
}

/// The step precondition of a fold driven by an in-place update callback.
pub open spec fn update_step_pre<A: View, T, U: MutUpdate<A, T>>() -> spec_fn(
    <A as View>::V,
    T,
) -> bool {
    |a: <A as View>::V, x: T| U::update_pre(a, x)
}

/// The step function of a fold driven by a value-style combining callback.
pub open spec fn combine_step<B: View, T, C: Combine<B, T>>() -> spec_fn(
    <B as View>::V,
    T,
) -> <B as View>::V {
    |b: <B as View>::V, x: T| C::combine_spec(b, x)
}

/// The step precondition of a fold driven by a value-style combining callback.
pub open spec fn combine_step_pre<B: View, T, C: Combine<B, T>>() -> spec_fn(
    <B as View>::V,
    T,
) -> bool {
    |b: <B as View>::V, x: T| C::combine_pre(b, x)
}

/// The step function of a traversal driven by a visitor, acting on its model.
pub open spec fn visit_step<T, V: Visitor<T>>() -> spec_fn(
    <V as Visitor<T>>::Model,
    T,
) -> <V as Visitor<T>>::Model {
    |m: <V as Visitor<T>>::Model, x: T| V::visit_model(m, x)
}

/// The step precondition of a traversal driven by a visitor.
pub open spec fn visit_step_pre<T, V: Visitor<T>>() -> spec_fn(
    <V as Visitor<T>>::Model,
    T,
) -> bool {
    |m: <V as Visitor<T>>::Model, x: T| V::visit_pre(m, x)
}

} // verus!
