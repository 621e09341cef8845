//! The entity pool: a fixed stock of reusable entities with borrow/return
//! semantics. Acquiring pops the front of the free queue (FIFO, so the
//! oldest-released entity is reused first) and returning pushes the back.
//! The pool never creates entities itself: the world's factory runs once at
//! setup, and any slot the factory failed to fill is skipped.

use vstd::prelude::*;
use std::collections::VecDeque;

verus! {

/// The entities of `slots` that the factory managed to create, in order.
pub open spec fn somes_of<T>(slots: Seq<Option<T>>) -> Seq<T>
    decreases slots.len(),
{
    if slots.len() == 0 {
        Seq::empty()
    } else {
        match slots.last() {
            Some(e) => somes_of(slots.drop_last()).push(e),
            None => somes_of(slots.drop_last()),
        }
    }
}

/// The free queue never holds more entities than the factory produced slots.
pub proof fn lemma_somes_of_len<T>(slots: Seq<Option<T>>)
    ensures
        somes_of(slots).len() <= slots.len(),
    decreases slots.len(),
{
    if slots.len() > 0 {
        lemma_somes_of_len(slots.drop_last());
    }
}

/// When every slot was filled, nothing is skipped: the free queue holds
/// exactly the created entities, in creation order.
pub proof fn lemma_somes_of_full<T>(slots: Seq<Option<T>>)
    requires
        forall|i: int| 0 <= i < slots.len() ==> slots[i] is Some,
    ensures
        somes_of(slots).len() == slots.len(),
        forall|i: int| 0 <= i < slots.len() ==> #[trigger] somes_of(slots)[i] == slots[i]->0,
    decreases slots.len(),
{
    if slots.len() > 0 {
        lemma_somes_of_full(slots.drop_last());
    }
}

/// Everything in the free queue came out of some factory slot.
pub proof fn lemma_somes_of_elements<T>(slots: Seq<Option<T>>)
    ensures
        forall|i: int|
            0 <= i < somes_of(slots).len() ==> exists|j: int|
                0 <= j < slots.len() && slots[j] == Some(#[trigger] somes_of(slots)[i]),
    decreases slots.len(),
{
    if slots.len() > 0 {
        let dl = slots.drop_last();
        lemma_somes_of_elements(dl);
        assert forall|i: int| 0 <= i < somes_of(slots).len() implies exists|j: int|
            0 <= j < slots.len() && slots[j] == Some(#[trigger] somes_of(slots)[i]) by {
            if i < somes_of(dl).len() {
                assert(somes_of(slots)[i] == somes_of(dl)[i]);
                let j = choose|j: int| 0 <= j < dl.len() && dl[j] == Some(somes_of(dl)[i]);
                assert(slots[j] == Some(somes_of(slots)[i]));
            } else {
                assert(slots.last() == Some(somes_of(slots)[i]));
                assert(slots[slots.len() - 1] == Some(somes_of(slots)[i]));
            }
        }
    }
}

/// A bounded pool of reusable entities.
pub struct Magazine<T> {
    bullets: VecDeque<T>,
}

impl<T> View for Magazine<T> {
    type V = Seq<T>;

    /// The free queue, front first.
    closed spec fn view(&self) -> Seq<T> {
        self.bullets@
    }
}

impl<T> Magazine<T> {
    /// Builds the pool from the factory's output: one `Option` per requested
    /// slot, skipping the failures, keeping creation order.
    pub fn new(slots: Vec<Option<T>>) -> (r: Magazine<T>)
        ensures
            r@ == somes_of(slots@),
            r@.len() <= slots@.len(),
    {
        let mut bullets: VecDeque<T> = VecDeque::new();
        let mut slots = slots;
        let ghost all = slots@;
        proof {
            assert(somes_of(all) =~= somes_of(slots@) + bullets@);
        }
        // Drain back to front so each taken slot is the remainder's last.
        while slots.len() > 0
            invariant
                somes_of(all) == somes_of(slots@) + bullets@,
            decreases slots.len(),
        {
            let ghost prev = slots@;
            let ghost prev_bullets = bullets@;
            let slot = slots.pop().unwrap();
            proof {
                assert(slots@ =~= prev.drop_last());
            }
            match slot {
                Some(e) => {
                    bullets.push_front(e);
                    proof {
                        assert(somes_of(prev) == somes_of(prev.drop_last()).push(e));
                        assert(somes_of(prev.drop_last()).push(e) + prev_bullets
                            =~= somes_of(prev.drop_last()) + bullets@);
                    }
                }
                None => {
                    proof {
                        assert(somes_of(prev) == somes_of(prev.drop_last()));
                    }
                },
            }
        }
        proof {
            assert(somes_of(slots@) + bullets@ == bullets@);
            lemma_somes_of_len(all);
        }
        Magazine { bullets }
    }

    /// Returns a previously borrowed entity to the back of the free queue.
    /// No ownership check is made: returning the same entity twice would
    /// duplicate it, so caller discipline is required.
    pub fn charge_bullet(&mut self, bullet: T)
        requires
            old(self)@.len() < usize::MAX,
        ensures
            final(self)@ == old(self)@.push(bullet),
    {
        self.bullets.push_back(bullet);
    }

    /// The number of entities left in the free queue.
    pub fn get_left_num(&self) -> (n: usize)
        ensures
            n == self@.len(),
    {
        self.bullets.len()
    }

    /// Borrows the entity at the front of the free queue, or reports
    /// depletion with `None` — never a panic, and the queue is unchanged.
    pub fn hammer(&mut self) -> (r: Option<T>)
        ensures
            match r {
                Some(e) => {
                    &&& old(self)@.len() > 0
                    &&& e == old(self)@[0]
                    &&& final(self)@ == old(self)@.drop_first()
                },
                None => {
                    &&& old(self)@.len() == 0
                    &&& final(self)@ == old(self)@
                },
            },
    {
        let r = self.bullets.pop_front();
        proof {
            if self.bullets@.len() > 0 || r is Some {
                assert(final(self)@ =~= old(self)@.drop_first());
            }
        }
        r
    }

    /// Drains the free queue for teardown, front first, handing every free
    /// entity back for the world to destroy. Entities still borrowed are not
    /// reclaimed: the pool never destroys what is in flight.
    pub fn close(&mut self) -> (freed: Vec<T>)
        ensures
            freed@ == old(self)@,
            final(self)@ == Seq::<T>::empty(),
    {
        let mut freed: Vec<T> = Vec::new();
        while self.bullets.len() > 0
            invariant
                freed@ + self@ == old(self)@,
            decreases self@.len(),
        {
            let e = self.bullets.pop_front().unwrap();
            freed.push(e);
            proof {
                assert(freed@ + self@ =~= old(self)@);
            }
        }
        proof {
            assert(freed@ =~= old(self)@);
        }
        freed
    }
}

/// Releasing what was just acquired restores the count: one borrow/return
/// cycle leaves the free queue one rotation along, at its original length.
pub proof fn law_acquire_release_count<T>(q: Seq<T>)
    requires
        q.len() > 0,
    ensures
        q.drop_first().push(q[0]).len() == q.len(),
{
}

/// Acquiring every entity of a full pool and then releasing each one, in the
/// order acquired, restores the free queue exactly: the round-trip law.
/// Acquiring all of `q` yields the entities of `q` front first and leaves the
/// queue empty; `released(empty, q)` is the queue after releasing them back.
pub proof fn law_round_trip<T>(q: Seq<T>)
    ensures
        released(Seq::<T>::empty(), q) == q,
{
    lemma_released_from_empty(q);
}

/// The free queue after entities are released one at a time, oldest first,
/// onto `base`.
pub open spec fn released<T>(base: Seq<T>, items: Seq<T>) -> Seq<T>
    decreases items.len(),
{
    if items.len() == 0 {
        base
    } else {
        released(base.push(items.first()), items.drop_first())
    }
}

proof fn lemma_released_append<T>(base: Seq<T>, items: Seq<T>)
    ensures
        released(base, items) == base + items,
    decreases items.len(),
{
    if items.len() == 0 {
        assert(released(base, items) =~= base + items);
    } else {
        lemma_released_append(base.push(items.first()), items.drop_first());
        assert(base.push(items.first()) + items.drop_first() =~= base + items);
    }
}

proof fn lemma_released_from_empty<T>(items: Seq<T>)
    ensures
        released(Seq::<T>::empty(), items) == items,
{
    lemma_released_append(Seq::<T>::empty(), items);
    assert(Seq::<T>::empty() + items =~= items);
}

} // verus!
