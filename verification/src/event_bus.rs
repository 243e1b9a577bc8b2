//! The subscribers of the player's events.

use vstd::prelude::*;

verus! {

/// `subscribers` without those that `delivered` reports as not reached. A
/// subscriber without a report stays.
pub open spec fn reached<T>(subscribers: Seq<T>, delivered: Seq<bool>) -> Seq<T>
    decreases subscribers.len(),
{
    if subscribers.len() == 0 {
        subscribers
    } else {
        let rest = reached(subscribers.drop_last(), delivered);
        let last = subscribers.len() - 1;
        if last < delivered.len() && !delivered[last] {
            rest
        } else {
            rest.push(subscribers.last())
        }
    }
}

/// Those to whom every event is sent. `T` is the sending end of a
/// subscriber's queue.
pub struct EventBus<T> {
    subscribers: Vec<T>,
}

impl<T> View for EventBus<T> {
    type V = Seq<T>;

    closed spec fn view(&self) -> Seq<T> {
        self.subscribers@
    }
}

impl<T> EventBus<T> {
    /// A bus without subscribers.
    pub fn new() -> (bus: EventBus<T>)
        ensures
            bus@.len() == 0,
    {
        EventBus { subscribers: Vec::new() }
    }

    /// Adds a subscriber behind those that are there.
    pub fn subscribe(&mut self, subscriber: T)
        ensures
            final(self)@ == old(self)@.push(subscriber),
    {
        self.subscribers.push(subscriber);
    }

    /// The subscribers, oldest first.
    pub fn subscribers(&self) -> (subscribers: &Vec<T>)
        ensures
            subscribers@ == self@,
    {
        &self.subscribers
    }

    fn take_all(&mut self) -> (all: Vec<T>)
        ensures
            all@ == old(self)@,
            final(self)@.len() == 0,
    {
        let mut all: Vec<T> = Vec::new();
        std::mem::swap(&mut self.subscribers, &mut all);
        all
    }

    /// Drops the subscribers that the last event did not reach:
    /// `delivered` holds, for each subscriber in turn, whether it did. The
    /// others stay, in their order.
    pub fn retain_reached(&mut self, delivered: &Vec<bool>)
        ensures
            final(self)@ == reached(old(self)@, delivered@),
    {
        let mut kept: Vec<T> = Vec::new();
        let mut all = self.take_all();
        let ghost before = all@;
        let total = all.len();
        let mut rest: Vec<T> = Vec::new();
        // Taken from the back, so that each subscriber is moved, not copied.
        let mut index: usize = total;
        while index > 0
            invariant
                index <= total,
                total == before.len(),
                all@ == before.take(index as int),
                rest@.reverse() == reached_from(before, delivered@, index as int),
            decreases index,
        {
            index -= 1;
            let subscriber = all.pop();
            proof {
                assert(all@ =~= before.take(index as int));
                lemma_reached_from_step(before, delivered@, index as int);
            }
            match subscriber {
                Some(subscriber) => {
                    if index >= delivered.len() || delivered[index] {
                        let ghost held = rest@;
                        rest.push(subscriber);
                        assert(rest@.reverse() =~= seq![subscriber] + held.reverse());
                    }
                },
                None => {},
            }
        }
        proof {
            lemma_reached_from_start(before, delivered@);
        }
        let mut left: usize = rest.len();
        while left > 0
            invariant
                left == rest@.len(),
                kept@ + rest@.reverse() == reached(before, delivered@),
            decreases left,
        {
            let ghost held = rest@;
            let ghost done = kept@;
            match rest.pop() {
                Some(subscriber) => {
                    kept.push(subscriber);
                    assert(held.reverse() =~= seq![subscriber] + rest@.reverse());
                    assert(kept@ + rest@.reverse() =~= done + held.reverse());
                },
                None => {},
            }
            left -= 1;
        }
        assert(kept@ =~= kept@ + rest@.reverse());
        self.subscribers = kept;
    }
}

/// The part of `reached` that comes from the subscribers from `from` on.
pub open spec fn reached_from<T>(subscribers: Seq<T>, delivered: Seq<bool>, from: int) -> Seq<T>
    decreases subscribers.len() - from,
{
    if from < 0 || from >= subscribers.len() {
        Seq::empty()
    } else {
        let rest = reached_from(subscribers, delivered, from + 1);
        if from < delivered.len() && !delivered[from] {
            rest
        } else {
            seq![subscribers[from]] + rest
        }
    }
}

proof fn lemma_reached_from_step<T>(subscribers: Seq<T>, delivered: Seq<bool>, from: int)
    requires
        0 <= from < subscribers.len(),
    ensures
        reached_from(subscribers, delivered, from) == if from < delivered.len()
            && !delivered[from] {
            reached_from(subscribers, delivered, from + 1)
        } else {
            seq![subscribers[from]] + reached_from(subscribers, delivered, from + 1)
        },
{
}

/// `reached` is `reached` of the first `upto` subscribers, followed by what
/// comes from the rest.
proof fn lemma_reached_split<T>(subscribers: Seq<T>, delivered: Seq<bool>, upto: int)
    requires
        0 <= upto <= subscribers.len(),
    ensures
        reached(subscribers, delivered) == reached(subscribers.take(upto), delivered)
            + reached_from(subscribers, delivered, upto),
    decreases subscribers.len() - upto,
{
    if upto == subscribers.len() {
        assert(subscribers.take(upto) =~= subscribers);
        assert(reached(subscribers, delivered) + Seq::<T>::empty() =~= reached(
            subscribers,
            delivered,
        ));
    } else {
        lemma_reached_split(subscribers, delivered, upto + 1);
        let longer = subscribers.take(upto + 1);
        assert(longer.drop_last() =~= subscribers.take(upto));
        assert(longer.last() == subscribers[upto]);
        let head = reached(subscribers.take(upto), delivered);
        let tail = reached_from(subscribers, delivered, upto + 1);
        if upto < delivered.len() && !delivered[upto] {
        } else {
            assert(head.push(subscribers[upto]) + tail =~= head + (seq![subscribers[upto]]
                + tail));
        }
    }
}

proof fn lemma_reached_from_start<T>(subscribers: Seq<T>, delivered: Seq<bool>)
    ensures
        reached_from(subscribers, delivered, 0) == reached(subscribers, delivered),
{
    lemma_reached_split(subscribers, delivered, 0);
    assert(subscribers.take(0) =~= Seq::<T>::empty());
    assert(Seq::<T>::empty() + reached_from(subscribers, delivered, 0) =~= reached_from(
        subscribers,
        delivered,
        0,
    ));
}

} // verus!
