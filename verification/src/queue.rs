use std::collections::VecDeque;
use vstd::prelude::*;

verus! {

/// A queue of at most `C` values that hands them out in the order in which it
/// took them in. A full queue takes nothing in and hands the value back to the
/// sender, who is thereby held up until the receiver has made room: values are
/// delayed, never dropped.
pub struct BoundedQueue<T, const C: usize> {
    items: VecDeque<T>,
}

/// Why a value was not taken in.
#[derive(Debug, Clone, Copy, PartialEq, Eq)]
pub enum TrySendError<T> {
    /// The queue holds `C` values already. The value comes back unchanged.
    Full(T),
}

/// Why no value was handed out.
#[derive(Debug, Clone, Copy, PartialEq, Eq)]
pub enum TryReceiveError {
    /// The queue holds no value.
    Empty,
}

/// Whether a queue with these contents and this capacity takes a value in.
pub open spec fn accepts<T>(items: Seq<T>, capacity: nat) -> bool {
    items.len() < capacity
}

/// The contents after an attempt to send `value`.
pub open spec fn after_send<T>(items: Seq<T>, capacity: nat, value: T) -> Seq<T> {
    if accepts(items, capacity) {
        items.push(value)
    } else {
        items
    }
}

/// The value that the next receive hands out, if there is one.
pub open spec fn front<T>(items: Seq<T>) -> Option<T> {
    if items.len() > 0 {
        Some(items[0])
    } else {
        None
    }
}

/// The contents after an attempt to receive.
pub open spec fn after_receive<T>(items: Seq<T>) -> Seq<T> {
    if items.len() > 0 {
        items.drop_first()
    } else {
        items
    }
}

impl<T, const C: usize> View for BoundedQueue<T, C> {
    type V = Seq<T>;

    closed spec fn view(&self) -> Seq<T> {
        self.items@
    }
}

impl<T, const C: usize> BoundedQueue<T, C> {
    #[verifier::type_invariant]
    spec fn within_capacity(&self) -> bool {
        self.items@.len() <= C
    }

    /// An empty queue.
    pub fn new() -> (queue: Self)
        ensures
            queue@ == Seq::<T>::empty(),
    {
        BoundedQueue { items: VecDeque::new() }
    }

    /// The number of values that the queue can hold.
    pub fn capacity(&self) -> (capacity: usize)
        ensures
            capacity == C,
    {
        C
    }

    /// The number of values in the queue, which never exceeds the capacity.
    pub fn len(&self) -> (len: usize)
        ensures
            len == self@.len(),
            len <= C,
    {
        proof {
            use_type_invariant(self);
        }
        self.items.len()
    }

    /// Whether the queue holds no value, so that a receiver has to wait.
    pub fn is_empty(&self) -> (empty: bool)
        ensures
            empty == (self@.len() == 0),
    {
        self.items.len() == 0
    }

    /// Whether the queue holds `C` values, so that a sender has to wait.
    pub fn is_full(&self) -> (full: bool)
        ensures
            full == !accepts(self@, C as nat),
    {
        proof {
            use_type_invariant(self);
        }
        self.items.len() >= C
    }

    /// The send of a task that does not wait. A queue with room takes the
    /// value in behind all the others. A full queue is left as it is and the
    /// value comes back in the error, which is where a waiting sender suspends
    /// with the value in hand.
    pub fn try_send(&mut self, value: T) -> (sent: Result<(), TrySendError<T>>)
        ensures
            final(self)@ == after_send(old(self)@, C as nat, value),
            accepts(old(self)@, C as nat) ==> sent == Ok::<(), TrySendError<T>>(()),
            !accepts(old(self)@, C as nat) ==> sent == Err::<(), TrySendError<T>>(
                TrySendError::Full(value),
            ),
    {
        proof {
            use_type_invariant(&*self);
        }
        if self.items.len() < C {
            // The deque is moved out while it changes, so that the bound on
            // its length is owed only when it is put back.
            let mut items = VecDeque::new();
            core::mem::swap(&mut self.items, &mut items);
            items.push_back(value);
            core::mem::swap(&mut self.items, &mut items);
            Ok(())
        } else {
            Err(TrySendError::Full(value))
        }
    }

    /// The receive of a task that does not wait. Hands out the value that has
    /// been in the queue for the longest time. An empty queue is left as it is,
    /// which is where a waiting receiver suspends.
    pub fn try_receive(&mut self) -> (received: Result<T, TryReceiveError>)
        ensures
            final(self)@ == after_receive(old(self)@),
            match front(old(self)@) {
                Some(value) => received == Ok::<T, TryReceiveError>(value),
                None => received == Err::<T, TryReceiveError>(TryReceiveError::Empty),
            },
    {
        proof {
            use_type_invariant(&*self);
        }
        let mut items = VecDeque::new();
        core::mem::swap(&mut self.items, &mut items);
        let first = items.pop_front();
        core::mem::swap(&mut self.items, &mut items);
        match first {
            Some(value) => Ok(value),
            None => Err(TryReceiveError::Empty),
        }
    }

    /// Empties the queue.
    pub fn clear(&mut self)
        ensures
            final(self)@ == Seq::<T>::empty(),
    {
        self.items = VecDeque::new();
    }
}

/// One producer and one consumer at the two ends of a queue: the values that
/// the producer has still to send, in order, the values in the queue, and the
/// values that the consumer has received, in order.
pub struct Transfer<T> {
    pub pending: Seq<T>,
    pub queued: Seq<T>,
    pub received: Seq<T>,
}

/// The producer's turn: it sends its next value. Where the queue is full, or
/// nothing is left to send, the turn changes nothing: the producer waits with
/// the value in hand.
pub open spec fn producer_turn<T>(t: Transfer<T>, capacity: nat) -> Transfer<T> {
    if t.pending.len() > 0 && accepts(t.queued, capacity) {
        Transfer {
            pending: t.pending.drop_first(),
            queued: after_send(t.queued, capacity, t.pending[0]),
            received: t.received,
        }
    } else {
        t
    }
}

/// The consumer's turn: it receives a value. Where the queue is empty the turn
/// changes nothing: the consumer waits.
pub open spec fn consumer_turn<T>(t: Transfer<T>) -> Transfer<T> {
    match front(t.queued) {
        Some(value) => Transfer {
            pending: t.pending,
            queued: after_receive(t.queued),
            received: t.received.push(value),
        },
        None => t,
    }
}

/// The state after the turns of `schedule` were taken from `t` on: `true` is a
/// turn of the producer, `false` one of the consumer.
pub open spec fn after_turns<T>(t: Transfer<T>, capacity: nat, schedule: Seq<bool>) -> Transfer<T>
    decreases schedule.len(),
{
    if schedule.len() == 0 {
        t
    } else {
        let before = after_turns(t, capacity, schedule.drop_last());
        if schedule.last() {
            producer_turn(before, capacity)
        } else {
            consumer_turn(before)
        }
    }
}

/// The start of a transfer of `values` through an empty queue.
pub open spec fn transfer_of<T>(values: Seq<T>) -> Transfer<T> {
    Transfer { pending: values, queued: Seq::empty(), received: Seq::empty() }
}

/// No turn loses, repeats or reorders a value: what was received, what is in
/// the queue and what is still to send make up, in this order, the same row of
/// values before and after the turn, and the queue stays within its capacity.
pub proof fn lemma_turn_keeps_order<T>(t: Transfer<T>, capacity: nat, producer: bool)
    requires
        t.queued.len() <= capacity,
    ensures
        ({
            let next = if producer {
                producer_turn(t, capacity)
            } else {
                consumer_turn(t)
            };
            &&& next.received + next.queued + next.pending == t.received + t.queued + t.pending
            &&& next.queued.len() <= capacity
        }),
{
    let next = if producer {
        producer_turn(t, capacity)
    } else {
        consumer_turn(t)
    };
    assert(next.received + next.queued + next.pending =~= t.received + t.queued + t.pending);
}

/// Whatever the order of the turns of one producer and one consumer, and
/// whatever the capacity: the values received so far, those in the queue and
/// those still to be sent are, in this order, exactly the values that the
/// producer set out to send. So the consumer receives them in the order of
/// sending, none is dropped while the producer waits on a full queue, and none
/// comes twice.
pub proof fn lemma_fifo_per_producer<T>(values: Seq<T>, capacity: nat, schedule: Seq<bool>)
    ensures
        ({
            let end = after_turns(transfer_of(values), capacity, schedule);
            &&& end.received + end.queued + end.pending == values
            &&& end.queued.len() <= capacity
            &&& end.received.len() <= values.len()
            &&& end.received == values.subrange(0, end.received.len() as int)
        }),
    decreases schedule.len(),
{
    let start = transfer_of(values);
    let end = after_turns(start, capacity, schedule);
    if schedule.len() == 0 {
        assert(start.received + start.queued + start.pending =~= values);
    } else {
        lemma_fifo_per_producer(values, capacity, schedule.drop_last());
        let before = after_turns(start, capacity, schedule.drop_last());
        lemma_turn_keeps_order(before, capacity, schedule.last());
    }
    assert(end.received =~= values.subrange(0, end.received.len() as int));
}

/// Three values sent in order by one producer: once the consumer has received
/// three values, they are these three, in this order.
pub proof fn lemma_three_in_order<T>(v1: T, v2: T, v3: T, capacity: nat, schedule: Seq<bool>)
    requires
        capacity >= 1,
        after_turns(transfer_of(seq![v1, v2, v3]), capacity, schedule).received.len() == 3,
    ensures
        after_turns(transfer_of(seq![v1, v2, v3]), capacity, schedule).received == seq![v1, v2, v3],
{
    lemma_fifo_per_producer(seq![v1, v2, v3], capacity, schedule);
    let end = after_turns(transfer_of(seq![v1, v2, v3]), capacity, schedule);
    assert(end.received =~= seq![v1, v2, v3]);
}

/// A full queue holds the sender up until the consumer receives: the send is
/// refused and changes nothing, as often as it is tried, and right after one
/// receive the same send is taken in, behind the values that were there.
pub proof fn lemma_backpressure<T>(items: Seq<T>, capacity: nat, value: T)
    requires
        capacity >= 1,
        items.len() == capacity,
    ensures
        !accepts(items, capacity),
        after_send(items, capacity, value) == items,
        front(items) == Some(items[0]),
        accepts(after_receive(items), capacity),
        after_send(after_receive(items), capacity, value) == items.drop_first().push(value),
{
}

/// Nothing but a receive ends the wait of a sender at a full queue: while the
/// consumer takes no turn, the producer's turns change nothing, however many
/// they are. A sink that stalls for ever holds its producers for ever.
pub proof fn lemma_stalled_consumer_holds_producer<T>(
    t: Transfer<T>,
    capacity: nat,
    schedule: Seq<bool>,
)
    requires
        t.queued.len() == capacity,
        forall|i: int| 0 <= i < schedule.len() ==> #[trigger] schedule[i],
    ensures
        after_turns(t, capacity, schedule) == t,
    decreases schedule.len(),
{
    if schedule.len() > 0 {
        lemma_stalled_consumer_holds_producer(t, capacity, schedule.drop_last());
    }
}

/// Several producers and one consumer at one queue. Each value in the queue
/// and each value received is kept with the number of the producer that sent
/// it. `sent[p]` counts the values that producer `p` has got into the queue.
pub struct Traffic<T> {
    pub sent: Seq<nat>,
    pub queued: Seq<(int, T)>,
    pub received: Seq<(int, T)>,
}

/// The values among `items` that producer `p` sent, in their order.
pub open spec fn from_producer<T>(items: Seq<(int, T)>, p: int) -> Seq<T>
    decreases items.len(),
{
    if items.len() == 0 {
        Seq::empty()
    } else if items.last().0 == p {
        from_producer(items.drop_last(), p).push(items.last().1)
    } else {
        from_producer(items.drop_last(), p)
    }
}

/// The turn of producer `p`, which has `values[p]` to send, in order: it sends
/// its next value. Where the queue is full, or nothing is left to send, the
/// turn changes nothing.
pub open spec fn producer_sends<T>(
    values: Seq<Seq<T>>,
    t: Traffic<T>,
    capacity: nat,
    p: int,
) -> Traffic<T> {
    if 0 <= p < values.len() && p < t.sent.len() && t.sent[p] < values[p].len() && accepts(
        t.queued,
        capacity,
    ) {
        Traffic {
            sent: t.sent.update(p, t.sent[p] + 1),
            queued: after_send(t.queued, capacity, (p, values[p][t.sent[p] as int])),
            received: t.received,
        }
    } else {
        t
    }
}

/// The consumer's turn among several producers.
pub open spec fn consumer_receives<T>(t: Traffic<T>) -> Traffic<T> {
    match front(t.queued) {
        Some(item) => Traffic {
            sent: t.sent,
            queued: after_receive(t.queued),
            received: t.received.push(item),
        },
        None => t,
    }
}

/// The traffic after the turns of `turns` were taken, from an empty queue on:
/// `Some(p)` is a turn of producer `p`, `None` one of the consumer.
pub open spec fn traffic_after<T>(
    values: Seq<Seq<T>>,
    capacity: nat,
    turns: Seq<Option<int>>,
) -> Traffic<T>
    decreases turns.len(),
{
    if turns.len() == 0 {
        Traffic {
            sent: Seq::new(values.len(), |p: int| 0nat),
            queued: Seq::empty(),
            received: Seq::empty(),
        }
    } else {
        let before = traffic_after(values, capacity, turns.drop_last());
        match turns.last() {
            Some(p) => producer_sends(values, before, capacity, p),
            None => consumer_receives(before),
        }
    }
}

/// The values of one producer in two rows of items, one after the other.
proof fn lemma_from_producer_add<T>(a: Seq<(int, T)>, b: Seq<(int, T)>, p: int)
    ensures
        from_producer(a + b, p) == from_producer(a, p) + from_producer(b, p),
    decreases b.len(),
{
    if b.len() == 0 {
        assert(a + b =~= a);
    } else {
        lemma_from_producer_add(a, b.drop_last(), p);
        assert((a + b).drop_last() =~= a + b.drop_last());
    }
}

/// With several producers at one queue, each producer's values still arrive in
/// the order in which it sent them, whatever the order of the turns: what the
/// consumer has received from producer `p` and what the queue holds of `p` are,
/// in this order, the first `sent[p]` values of `p`. How the values of
/// different producers lie among each other is not fixed by anything.
pub proof fn lemma_fifo_among_producers<T>(
    values: Seq<Seq<T>>,
    capacity: nat,
    turns: Seq<Option<int>>,
    p: int,
)
    requires
        0 <= p < values.len(),
    ensures
        ({
            let end = traffic_after(values, capacity, turns);
            let arrived = from_producer(end.received, p);
            &&& end.sent.len() == values.len()
            &&& end.sent[p] <= values[p].len()
            &&& end.queued.len() <= capacity
            &&& arrived + from_producer(end.queued, p) == values[p].take(end.sent[p] as int)
            &&& arrived.len() <= values[p].len()
            &&& arrived == values[p].take(arrived.len() as int)
        }),
    decreases turns.len(),
{
    let end = traffic_after(values, capacity, turns);
    if turns.len() == 0 {
        assert(from_producer(end.received, p) + from_producer(end.queued, p) =~= values[p].take(
            0,
        ));
    } else {
        lemma_fifo_among_producers(values, capacity, turns.drop_last(), p);
        let before = traffic_after(values, capacity, turns.drop_last());
        let had = from_producer(before.received, p) + from_producer(before.queued, p);
        if end != before {
            match turns.last() {
                Some(q) => {
                    // Producer `q` has put its next value at the end of the queue.
                    let value = values[q][before.sent[q] as int];
                    assert(end.queued.drop_last() =~= before.queued);
                    if q == p {
                        assert(values[p].take(end.sent[p] as int) =~= values[p].take(
                            before.sent[p] as int,
                        ).push(value));
                        assert(from_producer(end.received, p) + from_producer(end.queued, p)
                            =~= had.push(value));
                    }
                },
                None => {
                    // The first item of the queue has become the last one received.
                    let item = before.queued[0];
                    lemma_from_producer_add(seq![item], end.queued, p);
                    assert(seq![item] + end.queued =~= before.queued);
                    assert(end.received.drop_last() =~= before.received);
                    assert(seq![item].last() == item);
                    assert(from_producer(seq![item].drop_last(), p) =~= Seq::<T>::empty());
                    assert(from_producer(end.received, p) + from_producer(end.queued, p) =~= had);
                },
            }
        }
    }
    let arrived = from_producer(end.received, p);
    let sent = values[p].take(end.sent[p] as int);
    assert(arrived =~= values[p].take(arrived.len() as int)) by {
        assert forall|i: int| 0 <= i < arrived.len() implies arrived[i] == values[p][i] by {
            assert((arrived + from_producer(end.queued, p))[i] == sent[i]);
        }
    }
}

} // verus!
