//! The best-first frontier over freely reduced words in the four generators.
//!
//! Each frontier item carries an accumulated matrix (the product of the
//! generators of a word prefix), the index of the generator to apply next,
//! and a priority: the negated inverse radius of the circle obtained by
//! letting the accumulated matrix act on that generator's boundary circle,
//! so that the largest unexplored circle is refined first.  A step pops the
//! item of highest priority and replaces it with its three successors — every
//! next index except the algebraic inverse of the last one, which would
//! cancel and leave the word unreduced.  Each item also carries its word as a
//! ghost history, and the queue's well-formedness ties every matrix to its
//! word and keeps every word freely reduced.
//!
//! A priority that is not a number would corrupt the ordering; it is rejected
//! as soon as it is computed.

use vstd::prelude::*;
use crate::{Error, Generator};
use crate::algebra::{Mat2, mat_mul_s, identity_s, mat_mul, identity};
use crate::circle::{Circle, mul_circle_s, radius_inv_s, mul_circle};
use crate::scalar::{is_nan_b, neg_b, flt_of, f64_is_nan, f64_neg, flt};

verus! {

/// A frontier item: the accumulated matrix, the index of the generator to
/// apply next, and the priority bits.
#[derive(Clone, Copy)]
pub struct QueueItem {
    pub matrix: Mat2,
    pub last: u8,
    pub priority: u64,
}

/// A word in the generators is freely reduced when every letter is an index
/// below four and no letter is followed by its algebraic inverse, the index
/// offset by two.
pub open spec fn freely_reduced(w: Seq<int>) -> bool {
    &&& forall|i: int| 0 <= i < w.len() ==> 0 <= #[trigger] w[i] < 4
    &&& forall|i: int| 0 <= i < w.len() - 1 ==> #[trigger] w[i + 1] != (w[i] + 2) % 4
}

/// The product of the generators along a word, multiplied on the right.
pub open spec fn word_prod(gens: Seq<Generator>, w: Seq<int>) -> Mat2
    decreases w.len(),
{
    if w.len() == 0 {
        identity_s()
    } else {
        mat_mul_s(word_prod(gens, w.drop_last()), gens[w.last()].matrix)
    }
}

/// The priority of an item: the negated inverse radius of the circle obtained
/// by letting the accumulated matrix act on the next generator's circle.
pub open spec fn priority_s(gens: Seq<Generator>, matrix: Mat2, last: u8) -> u64 {
    neg_b(radius_inv_s(mul_circle_s(matrix, gens[last as int].circle)))
}

/// An item is admissible when its priority is a number.
pub open spec fn item_ok_s(gens: Seq<Generator>, matrix: Mat2, last: u8) -> bool {
    !is_nan_b(priority_s(gens, matrix, last))
}

/// The item built from an accumulated matrix and a next index.
pub open spec fn item_s(gens: Seq<Generator>, matrix: Mat2, last: u8) -> QueueItem {
    QueueItem { matrix, last, priority: priority_s(gens, matrix, last) }
}

/// An item is well formed for a word when the word is freely reduced, ends in
/// the item's next index, and multiplies out to the item's matrix, and the
/// priority is the admissible priority of the item.
pub open spec fn item_wf(gens: Seq<Generator>, it: QueueItem, w: Seq<int>) -> bool {
    &&& it.last < 4
    &&& w.len() >= 1
    &&& freely_reduced(w)
    &&& w.last() == it.last as int
    &&& it.matrix == word_prod(gens, w.drop_last())
    &&& it.priority == priority_s(gens, it.matrix, it.last)
    &&& !is_nan_b(it.priority)
}

/// The index the scan of the priorities settles on: the first index whose
/// priority no later priority strictly exceeds in the running comparison.
pub open spec fn best_of(items: Seq<QueueItem>) -> int
    decreases items.len(),
{
    if items.len() <= 1 {
        0
    } else {
        let b = best_of(items.drop_last());
        if flt_of(items[b].priority, items[items.len() - 1].priority) {
            items.len() - 1
        } else {
            b
        }
    }
}

pub proof fn lemma_best_of_in_range(items: Seq<QueueItem>)
    requires
        items.len() >= 1,
    ensures
        0 <= best_of(items) < items.len(),
    decreases items.len(),
{
    if items.len() > 1 {
        lemma_best_of_in_range(items.drop_last());
    }
}

/// One step of the frontier: pop the best item, extend its word by each of
/// the three indices that keep it freely reduced, and enqueue the successors
/// (one in the popped item's slot, two at the end).  The step fails when a
/// successor priority is not a number.
pub open spec fn advance_s(gens: Seq<Generator>, items: Seq<QueueItem>) -> Option<Seq<QueueItem>> {
    if items.len() == 0 {
        None
    } else {
        let k = best_of(items);
        let popped = items[k];
        let m2 = mat_mul_s(popped.matrix, gens[popped.last as int].matrix);
        let l0 = (((popped.last as int) + 3) % 4) as u8;
        let l1 = (((popped.last as int) + 4) % 4) as u8;
        let l2 = (((popped.last as int) + 5) % 4) as u8;
        if item_ok_s(gens, m2, l0) && item_ok_s(gens, m2, l1) && item_ok_s(gens, m2, l2) {
            Some(
                items.update(k, item_s(gens, m2, l0)).push(item_s(gens, m2, l1)).push(
                    item_s(gens, m2, l2),
                ),
            )
        } else {
            None
        }
    }
}

/// The frontier state after advancing until at least `n` items are held, or
/// nothing when a step fails on the way.
pub open spec fn run_queue(gens: Seq<Generator>, items: Seq<QueueItem>, n: int) -> Option<
    Seq<QueueItem>,
>
    decreases (if n - items.len() >= 0 { n - items.len() } else { 0 })
        via run_queue_decreases
{
    if items.len() >= n || items.len() == 0 {
        Some(items)
    } else {
        match advance_s(gens, items) {
            Option::None => None,
            Option::Some(next) => run_queue(gens, next, n),
        }
    }
}

#[via_fn]
proof fn run_queue_decreases(gens: Seq<Generator>, items: Seq<QueueItem>, n: int) {
    if items.len() < n && items.len() >= 1 {
        lemma_best_of_in_range(items);
    }
}

/// The initial frontier: the identity matrix paired with each generator
/// index.
pub open spec fn init_items_s(gens: Seq<Generator>) -> Seq<QueueItem> {
    seq![
        item_s(gens, identity_s(), 0u8),
        item_s(gens, identity_s(), 1u8),
        item_s(gens, identity_s(), 2u8),
        item_s(gens, identity_s(), 3u8),
    ]
}

/// The initial frontier is admissible when all four starting priorities are
/// numbers.
pub open spec fn init_ok_s(gens: Seq<Generator>) -> bool {
    forall|i: u8| i < 4 ==> #[trigger] item_ok_s(gens, identity_s(), i)
}

/// The frontier of the traversal: the items, the four generators they share,
/// and the ghost history of each item's word.
pub struct CircleQueue {
    pub items: Vec<QueueItem>,
    pub gens: [Generator; 4],
    pub words: Ghost<Seq<Seq<int>>>,
}

impl CircleQueue {
    /// Every item is well formed for its word: the words are freely reduced,
    /// and each matrix is the product of its word's prefix.
    pub open spec fn wf(self) -> bool {
        &&& self.words@.len() == self.items@.len()
        &&& forall|i: int|
            0 <= i < self.items@.len() ==> item_wf(
                self.gens@,
                #[trigger] self.items@[i],
                self.words@[i],
            )
    }

    /// Builds the item that pairs `matrix` with the next index `last`,
    /// rejecting a priority that is not a number.
    fn item(&self, matrix: Mat2, last: u8) -> (r: Result<QueueItem, Error>)
        requires
            last < 4,
        ensures
            r is Ok <==> item_ok_s(self.gens@, matrix, last),
            r is Ok ==> r->Ok_0 == item_s(self.gens@, matrix, last),
            r is Err ==> r->Err_0 == Error::InvalidPriority,
    {
        let c = mul_circle(&matrix, &self.gens[last as usize].circle);
        let p = f64_neg(c.radius_inv());
        if f64_is_nan(p) {
            return Err(Error::InvalidPriority);
        }
        Ok(QueueItem { matrix, last, priority: p })
    }

    /// Builds the initial frontier: the identity matrix paired with each
    /// generator index, with singleton ghost words.
    pub fn new(gens: [Generator; 4]) -> (r: Result<CircleQueue, Error>)
        ensures
            r is Ok <==> init_ok_s(gens@),
            r is Ok ==> (r->Ok_0).wf() && (r->Ok_0).gens == gens && (r->Ok_0).items@
                == init_items_s(gens@),
            r is Err ==> r->Err_0 == Error::InvalidPriority,
    {
        let mut q = CircleQueue { items: Vec::new(), gens, words: Ghost(Seq::empty()) };
        let id = identity();
        let mut i: u8 = 0;
        while i < 4
            invariant
                i <= 4,
                q.gens == gens,
                id == identity_s(),
                q.items@.len() == i as int,
                q.words@.len() == i as int,
                forall|j: u8| j < i ==> #[trigger] item_ok_s(gens@, identity_s(), j),
                forall|j: int|
                    0 <= j < i as int ==> #[trigger] q.items@[j] == item_s(
                        gens@,
                        identity_s(),
                        j as u8,
                    ),
                forall|j: int| 0 <= j < i as int ==> #[trigger] q.words@[j] == seq![j],
            decreases 4 - i as int,
        {
            let it = match q.item(id, i) {
                Ok(it) => it,
                Err(e) => {
                    assert(!item_ok_s(gens@, identity_s(), i as u8));
                    return Err(e);
                },
            };
            q.items.push(it);
            proof {
                q.words@ = q.words@.push(seq![i as int]);
            }
            i = i + 1;
        }
        proof {
            assert(q.items@ =~= init_items_s(gens@));
            assert forall|j: int| 0 <= j < q.items@.len() implies item_wf(
                gens@,
                #[trigger] q.items@[j],
                q.words@[j],
            ) by {
                let w: Seq<int> = seq![j];
                assert(q.words@[j] == w);
                assert(q.items@[j] == item_s(gens@, identity_s(), j as u8));
                assert(item_ok_s(gens@, identity_s(), j as u8));
                assert(w.drop_last() =~= Seq::<int>::empty());
                assert(word_prod(gens@, w.drop_last()) == identity_s());
                assert(w.last() == j);
                assert(freely_reduced(w));
            }

        }
        Ok(q)
    }

    /// The index of the item the running comparison of priorities settles on.
    fn best_index(&self) -> (r: usize)
        requires
            self.items@.len() >= 1,
        ensures
            r == best_of(self.items@),
            r < self.items@.len(),
    {
        let ghost s = self.items@;
        let mut best: usize = 0;
        let mut j: usize = 1;
        assert(s.take(1) =~= seq![s[0]]);
        while j < self.items.len()
            invariant
                1 <= j <= s.len(),
                s == self.items@,
                best < j,
                best == best_of(s.take(j as int)),
            decreases s.len() - j,
        {
            if flt(self.items[best].priority, self.items[j].priority) {
                best = j;
            }
            proof {
                assert(s.take(j as int + 1).drop_last() =~= s.take(j as int));
                assert(s.take(j as int + 1).len() == j as int + 1);
                lemma_best_of_in_range(s.take(j as int));
            }
            j = j + 1;
        }
        proof {
            assert(s.take(s.len() as int) =~= s);
        }
        best
    }

    /// Pops the item of highest priority, multiplies its matrix by its next
    /// generator, and enqueues the three successors whose indices keep the
    /// word freely reduced (every index but the popped one's algebraic
    /// inverse).  When a successor priority is not a number the frontier is
    /// left unchanged and the step fails.
    pub fn advance(&mut self) -> (r: Result<(), Error>)
        requires
            old(self).wf(),
            old(self).items@.len() >= 1,
        ensures
            final(self).gens == old(self).gens,
            r is Ok <==> advance_s(old(self).gens@, old(self).items@) is Some,
            r is Ok ==> final(self).wf(),
            r is Ok ==> Some(final(self).items@) == advance_s(old(self).gens@, old(self).items@),
            r is Ok ==> final(self).items@.len() == old(self).items@.len() + 2,
            r is Err ==> *final(self) == *old(self) && r->Err_0 == Error::InvalidPriority,
    {
        let k = self.best_index();
        let popped = self.items[k];
        assert(item_wf(self.gens@, popped, self.words@[k as int]));
        let m2 = mat_mul(&popped.matrix, &self.gens[popped.last as usize].matrix);
        let l0 = (popped.last + 3) % 4;
        let l1 = (popped.last + 4) % 4;
        let l2 = (popped.last + 5) % 4;
        let s0 = match self.item(m2, l0) {
            Ok(it) => it,
            Err(e) => { return Err(e) },
        };
        let s1 = match self.item(m2, l1) {
            Ok(it) => it,
            Err(e) => { return Err(e) },
        };
        let s2 = match self.item(m2, l2) {
            Ok(it) => it,
            Err(e) => { return Err(e) },
        };
        let ghost w = self.words@[k as int];
        let ghost w0 = w.push(l0 as int);
        let ghost w1 = w.push(l1 as int);
        let ghost w2 = w.push(l2 as int);
        self.items[k] = s0;
        self.items.push(s1);
        self.items.push(s2);
        proof {
            self.words@ = self.words@.update(k as int, w0).push(w1).push(w2);
            let gens = self.gens@;
            assert(w.len() >= 1 && w.last() == popped.last as int);
            assert(word_prod(gens, w) == mat_mul_s(
                word_prod(gens, w.drop_last()),
                gens[w.last()].matrix,
            ));
            assert(word_prod(gens, w) == m2);
            assert(w0.drop_last() =~= w);
            assert(w1.drop_last() =~= w);
            assert(w2.drop_last() =~= w);
            assert(item_wf(gens, s0, w0));
            assert(item_wf(gens, s1, w1));
            assert(item_wf(gens, s2, w2));
            assert forall|i: int| 0 <= i < self.items@.len() implies item_wf(
                gens,
                #[trigger] self.items@[i],
                self.words@[i],
            ) by {
                let n0 = old(self).items@.len() as int;
                if i < n0 && i != k as int {
                    assert(self.items@[i] == old(self).items@[i]);
                    assert(self.words@[i] == old(self).words@[i]);
                    assert(item_wf(gens, old(self).items@[i], old(self).words@[i]));
                }
            }
        }
        Ok(())
    }

    /// Every word the traversal holds is freely reduced: no generator index
    /// is ever followed by its algebraic inverse, the index offset by two, so
    /// no step of a traversal path cancels the generator applied before it.
    pub proof fn lemma_words_freely_reduced(self)
        requires
            self.wf(),
        ensures
            forall|i: int| 0 <= i < self.words@.len() ==> freely_reduced(#[trigger] self.words@[i]),
    {
        assert forall|i: int|
            0 <= i < self.words@.len() implies freely_reduced(#[trigger] self.words@[i]) by {
            assert(item_wf(self.gens@, self.items@[i], self.words@[i]));
        }
    }

    /// The number of frontier items held.
    pub fn len(&self) -> (r: usize)
        ensures
            r == self.items@.len(),
    {
        self.items.len()
    }

    /// Consumes the frontier and returns, for each item, the circle obtained
    /// by letting its matrix act on its generator's circle.
    pub fn circles(self) -> (r: Vec<Circle>)
        requires
            self.wf(),
        ensures
            r@.len() == self.items@.len(),
            forall|i: int|
                0 <= i < r@.len() ==> #[trigger] r@[i] == mul_circle_s(
                    self.items@[i].matrix,
                    self.gens@[self.items@[i].last as int].circle,
                ),
    {
        let mut out: Vec<Circle> = Vec::new();
        let mut i: usize = 0;
        while i < self.items.len()
            invariant
                self.wf(),
                i <= self.items@.len(),
                out@.len() == i as int,
                forall|j: int|
                    0 <= j < i as int ==> #[trigger] out@[j] == mul_circle_s(
                        self.items@[j].matrix,
                        self.gens@[self.items@[j].last as int].circle,
                    ),
            decreases self.items@.len() - i,
        {
            let it = self.items[i];
            assert(item_wf(self.gens@, it, self.words@[i as int]));
            let c = mul_circle(&it.matrix, &self.gens[it.last as usize].circle);
            out.push(c);
            i = i + 1;
        }
        out
    }
}

} // verus!
