use vstd::prelude::*;

verus! {

/// The mathematical meaning shared by every reduction strategy: starting from
/// the accumulator model `m`, apply the step function `f` to each element of
/// `s` in index order, threading the accumulator through.
pub open spec fn fold_spec<M, T>(s: Seq<T>, m: M, f: spec_fn(M, T) -> M) -> M
    decreases s.len(),
{
    if s.len() == 0 {
        m
    } else {
        fold_spec(s.drop_first(), f(m, s[0]), f)
    }
}

/// Every step of the fold of `s` from `m` meets the step precondition `p`:
/// the first step may be taken from `m`, and the rest from the accumulator
/// that `f` produces.
pub open spec fn fold_pre_spec<M, T>(
    s: Seq<T>,
    m: M,
    p: spec_fn(M, T) -> bool,
    f: spec_fn(M, T) -> M,
) -> bool
    decreases s.len(),
{
    s.len() == 0 || (p(m, s[0]) && fold_pre_spec(s.drop_first(), f(m, s[0]), p, f))
}

/// A step function that appends each element to a log.
pub open spec fn record_step<T>() -> spec_fn(Seq<T>, T) -> Seq<T> {
    |log: Seq<T>, x: T| log.push(x)
}

/// A step function that counts how many times it is applied.
pub open spec fn count_step<T>() -> spec_fn(int, T) -> int {
    |c: int, x: T| c + 1
}

/// A fold over an empty sequence performs no step at all: it hands the initial
/// accumulator back unchanged, whatever the step function is.
pub proof fn lemma_fold_empty<M, T>(s: Seq<T>, m: M, f: spec_fn(M, T) -> M)
    requires
        s.len() == 0,
    ensures
        fold_spec(s, m, f) == m,
{
}

/// A fold visits the elements in index order, each exactly once: a fold that
/// logs every element it is given ends with the log extended by exactly the
/// folded sequence, with no element skipped, duplicated or reordered.
pub proof fn lemma_fold_order<T>(s: Seq<T>, log: Seq<T>)
    ensures
        fold_spec(s, log, record_step::<T>()) == log + s,
    decreases s.len(),
{
    if s.len() == 0 {
        assert(log + s =~= log);
    } else {
        lemma_fold_order(s.drop_first(), log.push(s[0]));
        assert(log.push(s[0]) + s.drop_first() =~= log + s);
    }
}

/// A fold applies its step function once per element: a fold that counts its
/// steps counts exactly the length of the folded sequence.
pub proof fn lemma_fold_count<T>(s: Seq<T>, c: int)
    ensures
        fold_spec(s, c, count_step::<T>()) == c + s.len(),
    decreases s.len(),
{
    if s.len() > 0 {
        lemma_fold_count(s.drop_first(), c + 1);
    }
}

/// A step precondition that admits every accumulator and element admits every
/// fold, whatever its length.
pub proof fn lemma_fold_pre_total<M, T>(
    s: Seq<T>,
    m: M,
    p: spec_fn(M, T) -> bool,
    f: spec_fn(M, T) -> M,
)
    requires
        forall|a: M, x: T| #[trigger] p(a, x),
    ensures
        fold_pre_spec(s, m, p, f),
    decreases s.len(),
{
    if s.len() > 0 {
        lemma_fold_pre_total(s.drop_first(), f(m, s[0]), p, f);
    }
}

} // verus!
