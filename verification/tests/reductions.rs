use iterator_tester::EvenSum;
use iterator_tester::IteratorTester;
use iterator_tester::Producer;
use iterator_tester::Recorder;
use iterator_tester::ThirdsCollector;
use iterator_tester::UpdateCombiner;
use iterator_tester::UpdateVisitor;
use iterator_tester::VecProducer;

fn collect_all<P: Producer<Item = i64>>(mut p: P) -> Vec<i64> {
    let mut out = Vec::new();
    loop {
        match p.next() {
            Some(x) => out.push(x),
            None => break,
        }
    }
    out
}

#[test]
fn iter_works() {
    let tester = IteratorTester::new(VecProducer::new(vec![1i64, 2, 3, 4, 5]));
    assert!(collect_all(tester) == vec![1i64, 2, 3, 4, 5]);
}

#[test]
fn fold_works() {
    let tester = IteratorTester::new(VecProducer::new(vec![1i64, 2, 3, 4, 5]));
    assert_eq!(tester.fold(0i64, UpdateCombiner::new(EvenSum)), 6);
}

#[test]
fn fold_mut_works() {
    let tester = IteratorTester::new(VecProducer::new(vec![1i64, 2, 3, 4, 5]));
    assert_eq!(tester.fold_mut(0i64, EvenSum), 6);
}

#[test]
fn fold_mut_fold_works() {
    let tester = IteratorTester::new(VecProducer::new(vec![1i64, 2, 3, 4, 5]));
    assert_eq!(tester.fold_mut_fold(0i64, EvenSum), 6);
}

#[test]
fn fold_mut_each() {
    let tester = IteratorTester::new(VecProducer::new(vec![1i64, 2, 3, 4, 5]));
    assert_eq!(tester.fold_mut_each(0i64, EvenSum), 6);
}

#[test]
fn strategies_agree_on_even_sum() {
    let a = IteratorTester::new(VecProducer::new(vec![1i64, 2, 3, 4, 5])).fold_mut(0i64, EvenSum);
    let b = IteratorTester::new(VecProducer::new(vec![1i64, 2, 3, 4, 5])).fold_mut_fold(
        0i64, EvenSum,
    );
    let c = IteratorTester::new(VecProducer::new(vec![1i64, 2, 3, 4, 5])).fold_mut_each(
        0i64, EvenSum,
    );
    assert_eq!(a, 6);
    assert_eq!(b, 6);
    assert_eq!(c, 6);
}

#[test]
fn empty_sequence_returns_initial() {
    let a = IteratorTester::new(VecProducer::new(Vec::<i64>::new())).fold_mut(0i64, EvenSum);
    let b = IteratorTester::new(VecProducer::new(Vec::<i64>::new())).fold_mut_fold(0i64, EvenSum);
    let c = IteratorTester::new(VecProducer::new(Vec::<i64>::new())).fold_mut_each(0i64, EvenSum);
    assert_eq!(a, 0);
    assert_eq!(b, 0);
    assert_eq!(c, 0);
}

#[test]
fn empty_sequence_never_invokes_update() {
    let log = IteratorTester::new(VecProducer::new(Vec::<i64>::new())).fold_mut(Vec::<i64>::new(), Recorder);
    assert!(log.is_empty());
    let log = IteratorTester::new(VecProducer::new(Vec::<i64>::new())).fold_mut_fold(Vec::<i64>::new(), Recorder);
    assert!(log.is_empty());
    let log = IteratorTester::new(VecProducer::new(Vec::<i64>::new())).fold_mut_each(Vec::<i64>::new(), Recorder);
    assert!(log.is_empty());
}

#[test]
fn thirds_collected_in_order() {
    let a = IteratorTester::new(VecProducer::new(vec![3i64, 6, 9])).fold_mut(
        Vec::new(),
        ThirdsCollector,
    );
    let b = IteratorTester::new(VecProducer::new(vec![3i64, 6, 9])).fold_mut_fold(
        Vec::new(),
        ThirdsCollector,
    );
    let c = IteratorTester::new(VecProducer::new(vec![3i64, 6, 9])).fold_mut_each(
        Vec::new(),
        ThirdsCollector,
    );
    assert_eq!(a, vec![1i64, 2, 3]);
    assert_eq!(b, vec![1i64, 2, 3]);
    assert_eq!(c, vec![1i64, 2, 3]);
}

#[test]
fn thirds_of_negative_multiples() {
    let got = IteratorTester::new(VecProducer::new(vec![-6i64, 4, 9])).fold_mut(
        Vec::new(),
        ThirdsCollector,
    );
    assert_eq!(got, vec![-2i64, 3]);
}

#[test]
fn update_sees_elements_in_order_once_each() {
    let a = IteratorTester::new(VecProducer::new(vec![10i64, 20, 30, 40])).fold_mut(
        Vec::new(),
        Recorder,
    );
    let b = IteratorTester::new(VecProducer::new(vec![10i64, 20, 30, 40])).fold_mut_fold(
        Vec::new(),
        Recorder,
    );
    let c = IteratorTester::new(VecProducer::new(vec![10i64, 20, 30, 40])).fold_mut_each(
        Vec::new(),
        Recorder,
    );
    assert_eq!(a, vec![10i64, 20, 30, 40]);
    assert_eq!(b, a);
    assert_eq!(c, a);
}

#[test]
fn update_invoked_once_per_element() {
    let log = IteratorTester::new(VecProducer::new(vec![1i64, 2, 3, 4, 5])).fold_mut(
        Vec::new(),
        Recorder,
    );
    assert_eq!(log.len(), 5);
}

#[test]
fn pass_through_composes() {
    let direct = collect_all(VecProducer::new(vec![1i64, 2, 3, 4, 5]));
    let wrapped = collect_all(IteratorTester::new(VecProducer::new(vec![1i64, 2, 3, 4, 5])));
    let doubly = collect_all(IteratorTester::new(IteratorTester::new(VecProducer::new(vec![
        1i64, 2, 3, 4, 5,
    ]))));
    assert_eq!(direct, vec![1i64, 2, 3, 4, 5]);
    assert_eq!(wrapped, direct);
    assert_eq!(doubly, direct);
}

#[test]
fn for_each_drives_the_update() {
    let tester = IteratorTester::new(VecProducer::new(vec![1i64, 2, 3, 4, 5]));
    let visitor = UpdateVisitor { accum: 0i64, f: EvenSum };
    assert_eq!(tester.for_each(visitor).accum, 6);
}
