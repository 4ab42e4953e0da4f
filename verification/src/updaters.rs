use vstd::prelude::*;

use crate::callbacks::MutUpdate;
use crate::callbacks::update_step;
use crate::callbacks::update_step_pre;
use crate::folds::fold_pre_spec;
use crate::folds::fold_spec;
use crate::folds::lemma_fold_order;
use crate::folds::lemma_fold_pre_total;
use crate::folds::record_step;

verus! {

/// Adds each even element to an integer accumulator and leaves the
/// accumulator alone on odd elements; the sum must stay within `i64`.
pub struct EvenSum;

impl MutUpdate<i64, i64> for EvenSum {
    open spec fn update_pre(a: i64, x: i64) -> bool {
        x % 2 == 0 ==> i64::MIN <= a + x <= i64::MAX
    }

    open spec fn update_spec(a: i64, x: i64) -> i64 {
        if x % 2 == 0 {
            (a + x) as i64
        } else {
            a
        }
    }

    fn update(&mut self, a: &mut i64, x: i64) {
        if x % 2 == 0 {
            *a = *a + x;
        }
    }
}

/// Appends a third of each element divisible by three to a list accumulator
/// and leaves the accumulator alone on the others.
pub struct ThirdsCollector;

impl MutUpdate<Vec<i64>, i64> for ThirdsCollector {
    open spec fn update_pre(a: Seq<i64>, x: i64) -> bool {
        true
    }

    open spec fn update_spec(a: Seq<i64>, x: i64) -> Seq<i64> {
        if x % 3 == 0 {
            a.push((x / 3) as i64)
        } else {
            a
        }
    }

    fn update(&mut self, a: &mut Vec<i64>, x: i64) {
        if x % 3 == 0 {
            a.push(x / 3);
        }
    }
}

/// Appends every element it is given to a log accumulator: running any
/// reduction with it leaves a record of which elements the update saw, and in
/// what order.
pub struct Recorder;

impl<T> MutUpdate<Vec<T>, T> for Recorder {
    open spec fn update_pre(a: Seq<T>, x: T) -> bool {
        true
    }

    open spec fn update_spec(a: Seq<T>, x: T) -> Seq<T> {
        a.push(x)
    }

    fn update(&mut self, a: &mut Vec<T>, x: T) {
        a.push(x);
    }
}

/// Order and count of the update calls, read off the reduction contracts:
/// reducing any sequence with `Recorder` is always admitted, and the log the
/// reductions are owed is the initial log extended by exactly the reduced
/// sequence — so the update saw every element, each once, in index order, and
/// saw nothing on an empty sequence.
pub proof fn lemma_recorder_logs_the_sequence<T>(s: Seq<T>, log: Seq<T>)
    ensures
        fold_pre_spec(
            s,
            log,
            update_step_pre::<Vec<T>, T, Recorder>(),
            update_step::<Vec<T>, T, Recorder>(),
        ),
        fold_spec(s, log, update_step::<Vec<T>, T, Recorder>()) == log + s,
{
    assert(update_step::<Vec<T>, T, Recorder>() =~= record_step::<T>());
    lemma_fold_pre_total(
        s,
        log,
        update_step_pre::<Vec<T>, T, Recorder>(),
        update_step::<Vec<T>, T, Recorder>(),
    );
    lemma_fold_order(s, log);
}

} // verus!
