//! The queue between work in the background and the single presentation
//! thread. What is handed in is delivered once, in the order in which it was
//! handed in, for as long as the presentation is alive; once it is torn
//! down, handing in does nothing and nothing is delivered any more.

use vstd::prelude::*;
use std::collections::VecDeque;

verus! {

/// A presentation queue as a mathematical value.
pub struct Queue<T> {
    /// Whether the presentation is alive.
    pub alive: bool,
    /// What was handed in and is not delivered yet, oldest first.
    pub items: Seq<T>,
}

/// The queue after `item` was handed in: it goes to the end of a live
/// queue, and nowhere once the presentation is torn down.
pub open spec fn after_submit<T>(q: Queue<T>, item: T) -> Queue<T> {
    if q.alive {
        Queue { alive: true, items: q.items.push(item) }
    } else {
        q
    }
}

/// What a queue delivers next: its oldest item while the presentation is
/// alive.
pub open spec fn next_delivery<T>(q: Queue<T>) -> Option<T> {
    if q.alive && q.items.len() > 0 {
        Some(q.items[0])
    } else {
        None
    }
}

/// The queue after a delivery: without its oldest item, when it delivered
/// one.
pub open spec fn after_deliver<T>(q: Queue<T>) -> Queue<T> {
    if q.alive && q.items.len() > 0 {
        Queue { alive: true, items: q.items.drop_first() }
    } else {
        q
    }
}

/// The queue after the presentation was torn down: what was pending is
/// dropped.
pub open spec fn torn_down<T>(q: Queue<T>) -> Queue<T> {
    Queue { alive: false, items: Seq::empty() }
}

/// The queue after each of `items` was handed in, in order.
pub open spec fn after_submit_all<T>(q: Queue<T>, items: Seq<T>) -> Queue<T>
    decreases items.len(),
{
    if items.len() == 0 {
        q
    } else {
        after_submit(after_submit_all(q, items.drop_last()), items.last())
    }
}

/// What the next `n` deliveries of a queue bring, in order.
pub open spec fn deliveries<T>(q: Queue<T>, n: nat) -> Seq<T>
    decreases n,
{
    if n == 0 {
        Seq::empty()
    } else {
        match next_delivery(q) {
            Some(item) => seq![item] + deliveries(after_deliver(q), (n - 1) as nat),
            None => Seq::empty(),
        }
    }
}

/// The presentation queue.
pub struct Outbox<T> {
    alive: bool,
    pending: VecDeque<T>,
}

impl<T> View for Outbox<T> {
    type V = Queue<T>;

    closed spec fn view(&self) -> Queue<T> {
        Queue { alive: self.alive, items: self.pending@ }
    }
}

impl<T> Outbox<T> {
    /// The queue of a live presentation, with nothing pending.
    pub fn new() -> (outbox: Outbox<T>)
        ensures
            outbox@ == (Queue { alive: true, items: Seq::<T>::empty() }),
    {
        Outbox { alive: true, pending: VecDeque::new() }
    }

    /// Whether the presentation is alive.
    pub fn is_alive(&self) -> (alive: bool)
        ensures
            alive == self@.alive,
    {
        self.alive
    }

    /// How many items are pending.
    pub fn len(&self) -> (n: usize)
        ensures
            n == self@.items.len(),
    {
        self.pending.len()
    }

    /// Hands an item in for delivery. While the presentation is alive the
    /// item goes to the end of the queue; once it is torn down the item is
    /// dropped in silence. Tells whether the item was taken.
    pub fn submit(&mut self, item: T) -> (taken: bool)
        ensures
            final(self)@ == after_submit(old(self)@, item),
            taken == old(self)@.alive,
    {
        if self.alive {
            self.pending.push_back(item);
            true
        } else {
            false
        }
    }

    /// Takes the oldest pending item out for presentation, if there is one
    /// and the presentation is alive. No item comes out twice.
    pub fn deliver(&mut self) -> (item: Option<T>)
        ensures
            item == next_delivery(old(self)@),
            final(self)@ == after_deliver(old(self)@),
    {
        if self.alive {
            let item = self.pending.pop_front();
            proof {
                if item is Some {
                    assert(final(self).pending@ =~= old(self).pending@.drop_first());
                }
            }
            item
        } else {
            None
        }
    }

    /// Tears the presentation down: what was pending is dropped, and
    /// nothing is taken or delivered from now on.
    pub fn tear_down(&mut self)
        ensures
            final(self)@ == torn_down(old(self)@),
    {
        self.alive = false;
        self.pending.clear();
    }
}

/// Handing items in to a live queue puts them behind what was pending, in
/// the order in which they were handed in.
pub proof fn lemma_submit_all<T>(q: Queue<T>, items: Seq<T>)
    ensures
        q.alive ==> after_submit_all(q, items) == (Queue {
            alive: true,
            items: q.items + items,
        }),
        !q.alive ==> after_submit_all(q, items) == q,
    decreases items.len(),
{
    if items.len() == 0 {
        assert(q.items + items =~= q.items);
    } else {
        lemma_submit_all(q, items.drop_last());
        assert(q.items + items =~= (q.items + items.drop_last()).push(items.last()));
    }
}

/// A live queue delivers what is pending, oldest first, each item once.
pub proof fn lemma_deliveries<T>(q: Queue<T>, n: nat)
    requires
        q.alive,
    ensures
        deliveries(q, n) == if n <= q.items.len() {
            q.items.take(n as int)
        } else {
            q.items
        },
    decreases n,
{
    if n == 0 {
        assert(q.items.take(0) =~= Seq::<T>::empty());
    } else if q.items.len() == 0 {
        assert(deliveries(q, n) =~= q.items);
    } else {
        let rest = after_deliver(q);
        lemma_deliveries(rest, (n - 1) as nat);
        if n <= q.items.len() {
            assert(seq![q.items[0]] + q.items.drop_first().take(n - 1) =~= q.items.take(n as int));
        } else {
            assert(seq![q.items[0]] + q.items.drop_first() =~= q.items);
        }
    }
}

/// Submission order: what is handed in to an empty live queue is delivered
/// in the same order, each item once.
pub proof fn lemma_submission_order<T>(items: Seq<T>)
    ensures
        deliveries(
            after_submit_all(Queue { alive: true, items: Seq::<T>::empty() }, items),
            items.len(),
        ) == items,
{
    let empty = Queue { alive: true, items: Seq::<T>::empty() };
    lemma_submit_all(empty, items);
    assert(empty.items + items =~= items);
    lemma_deliveries(Queue { alive: true, items }, items.len());
    assert(items.take(items.len() as int) =~= items);
}

/// After the presentation is torn down, whatever is handed in, nothing is
/// ever delivered.
pub proof fn lemma_torn_down_is_silent<T>(q: Queue<T>, items: Seq<T>, n: nat)
    ensures
        deliveries(after_submit_all(torn_down(q), items), n) == Seq::<T>::empty(),
        after_submit_all(torn_down(q), items) == torn_down(q),
{
    lemma_submit_all(torn_down(q), items);
}

} // verus!
