//! A lazy, pull-driven traversal of a finite ordered source: each pull
//! applies a pure transformation to the next source element and hands it
//! out as an already completed deferred computation.

use core::marker::PhantomData;
use vstd::prelude::*;

use crate::task::AsyncOp;
use crate::task::AsyncValue;

verus! {

/// A pure, stateless transformation applied to every element a stream
/// produces. `accepts` carves out the inputs the transformation is defined
/// on (for instance, inputs whose image fits the output type), and
/// `spec_apply` says what it computes there.
pub trait Transform<T, U> {
    /// The inputs the transformation is defined on.
    spec fn accepts(&self, t: T) -> bool;

    /// The value the transformation computes.
    spec fn spec_apply(&self, t: T) -> U;

    /// Apply the transformation to one element.
    fn apply(&self, t: &T) -> (u: U)
        requires
            self.accepts(*t),
        ensures
            u == self.spec_apply(*t),
    ;
}

/// Multiplication by a constant factor, as a stream transformation on `i32`.
pub struct Scale {
    factor: i32,
}

impl Scale {
    /// The transformation `t -> factor * t`.
    pub fn new(factor: i32) -> (r: Self)
        ensures
            r.spec_factor() == factor,
    {
        Scale { factor }
    }

    /// The constant factor this transformation multiplies by.
    pub closed spec fn spec_factor(&self) -> i32 {
        self.factor
    }
}

impl Transform<i32, i32> for Scale {
    /// Only products that fit an `i32` are accepted.
    open spec fn accepts(&self, t: i32) -> bool {
        i32::MIN <= self.spec_factor() * t <= i32::MAX
    }

    open spec fn spec_apply(&self, t: i32) -> i32 {
        (self.spec_factor() * t) as i32
    }

    fn apply(&self, t: &i32) -> (u: i32) {
        self.factor * *t
    }
}

/// A lazy pull over a finite ordered source: a cursor into the source plus
/// a stored transformation. Nothing is computed ahead of demand, and a
/// consumed stream is a one-way traversal: it can only be restarted by
/// building a new stream over the same source.
pub struct Stream<T, U, F: Transform<T, U>> {
    source: Vec<T>,
    cursor: usize,
    transform: F,
    output: PhantomData<U>,
}

impl<T, U, F: Transform<T, U>> Stream<T, U, F> {
    /// The source elements not yet produced, in source order.
    pub closed spec fn remaining(&self) -> Seq<T> {
        self.source@.skip(self.cursor as int)
    }

    /// The stored transformation.
    pub closed spec fn spec_transform(&self) -> F {
        self.transform
    }

    /// The cursor never runs past the source, and the transformation is
    /// defined on every element still to come.
    pub closed spec fn wf(&self) -> bool {
        &&& self.cursor <= self.source@.len()
        &&& forall|i: int|
            self.cursor <= i < self.source@.len() ==> self.transform.accepts(#[trigger] self.source@[i])
    }

    /// Build a stream over a finite ordered source with a transformation
    /// that is defined on every source element.
    pub fn new(source: Vec<T>, transform: F) -> (r: Self)
        requires
            forall|i: int| 0 <= i < source@.len() ==> transform.accepts(#[trigger] source@[i]),
        ensures
            r.wf(),
            r.remaining() == source@,
            r.spec_transform() == transform,
    {
        let r = Stream { source, cursor: 0, transform, output: PhantomData };
        proof {
            assert(r.remaining() =~= r.source@);
        }
        r
    }

    /// Pull the next item: transform the next source element and hand it out
    /// as an already completed deferred computation, or report exhaustion.
    /// An exhausted stream is stable: every further pull reports exhaustion
    /// again and leaves the stream unchanged.
    pub fn produce_next(&mut self) -> (item: Option<AsyncValue<U>>)
        requires
            old(self).wf(),
        ensures
            final(self).wf(),
            final(self).spec_transform() == old(self).spec_transform(),
            old(self).remaining().len() == 0 ==> {
                &&& item is None
                &&& *final(self) == *old(self)
            },
            old(self).remaining().len() > 0 ==> {
                &&& (item matches Some(av) && av.polls_remaining() == 0 && av.outcome()
                    == old(self).spec_transform().spec_apply(old(self).remaining()[0]))
                &&& final(self).remaining() == old(self).remaining().skip(1)
            },
    {
        if self.cursor < self.source.len() {
            let element = &self.source[self.cursor];
            let transformed = self.transform.apply(element);
            self.cursor = self.cursor + 1;
            proof {
                assert(self.remaining() =~= old(self).remaining().skip(1));
            }
            Some(AsyncValue::ready(transformed))
        } else {
            None
        }
    }

    /// Drain the stream to the end: the result holds exactly one output per
    /// remaining source element, in source order, each the transformation's
    /// image of its element.
    pub fn collect_remaining(self) -> (out: Vec<U>)
        requires
            self.wf(),
        ensures
            out@.len() == self.remaining().len(),
            forall|i: int|
                0 <= i < out@.len() ==> #[trigger] out@[i] == self.spec_transform().spec_apply(
                    self.remaining()[i],
                ),
    {
        let mut stream = self;
        let mut out: Vec<U> = Vec::new();
        let ghost total = stream.remaining().len();
        loop
            invariant
                stream.wf(),
                stream.spec_transform() == self.spec_transform(),
                out@.len() + stream.remaining().len() == self.remaining().len(),
                stream.remaining() == self.remaining().skip(out@.len() as int),
                forall|i: int|
                    0 <= i < out@.len() ==> #[trigger] out@[i] == self.spec_transform().spec_apply(
                        self.remaining()[i],
                    ),
            decreases stream.remaining().len(),
        {
            match stream.produce_next() {
                Some(item) => {
                    out.push(item.into_outcome());
                    proof {
                        assert(stream.remaining() =~= self.remaining().skip(out@.len() as int));
                    }
                },
                None => {
                    return out;
                },
            }
        }
    }
}

} // verus!
