use vstd::prelude::*;

verus! {

/// The single-step sequence capability: a lazy, forward-only producer of
/// elements, supporting exactly one operation — hand out the next element, or
/// signal exhaustion. `remaining` is the abstract content still to come.
pub trait Producer: Sized {
    type Item;

    /// The elements this producer will still hand out, in order.
    spec fn remaining(&self) -> Seq<Self::Item>;

    /// Produce the next element, or signal exhaustion: `Some` hands out
    /// exactly the head of `remaining` and leaves the tail; `None` comes
    /// exactly when nothing remains, and leaves the producer as it was.
    fn next(&mut self) -> (r: Option<Self::Item>)
        ensures
            match r {
                Some(x) => old(self).remaining().len() > 0 && x == old(self).remaining()[0]
                    && final(self).remaining() == old(self).remaining().drop_first(),
                None => old(self).remaining().len() == 0 && final(self).remaining() == old(
                    self,
                ).remaining(),
            },
    ;
}

/// A producer backed by a vector: hands out the vector's elements front to
/// back.
pub struct VecProducer<T> {
    items: Vec<T>,
}

impl<T> VecProducer<T> {
    /// Wrap a vector; the producer will yield exactly its elements, in order.
    pub fn new(items: Vec<T>) -> (r: Self)
        ensures
            r.remaining() == items@,
    {
        VecProducer { items }
    }
}

impl<T> Producer for VecProducer<T> {
    type Item = T;

    closed spec fn remaining(&self) -> Seq<T> {
        self.items@
    }

    fn next(&mut self) -> (r: Option<T>) {
        if self.items.len() == 0 {
            None
        } else {
            let x = self.items.remove(0);
            proof {
                assert(self.items@ =~= old(self).items@.drop_first());
            }
            Some(x)
        }
    }
}

} // verus!
