use vstd::prelude::*;

verus! {

/// A single-slot mailbox that keeps only the latest value published into it.
///
/// Publishing never waits and never fails: a value that was not read yet is
/// replaced. Reading takes the value out, so that each one is read at most
/// once.
pub struct Mailbox<T> {
    slot: Option<T>,
}

/// The slot after `value` was published into it, whatever it held before.
pub open spec fn published<T>(slot: Option<T>, value: T) -> Option<T> {
    Some(value)
}

/// The slot after all of `values` were published into it, in order, with no
/// read in between.
pub open spec fn published_all<T>(slot: Option<T>, values: Seq<T>) -> Option<T>
    decreases values.len(),
{
    if values.len() == 0 {
        slot
    } else {
        published(published_all(slot, values.drop_last()), values.last())
    }
}

/// What a read hands out of the slot.
pub open spec fn delivered<T>(slot: Option<T>) -> Option<T> {
    slot
}

/// The slot after a read: always empty.
pub open spec fn drained<T>(slot: Option<T>) -> Option<T> {
    None
}

impl<T> View for Mailbox<T> {
    type V = Option<T>;

    closed spec fn view(&self) -> Option<T> {
        self.slot
    }
}

impl<T> Mailbox<T> {
    /// An empty mailbox.
    pub fn new() -> (mailbox: Self)
        ensures
            mailbox@ is None,
    {
        Mailbox { slot: None }
    }

    /// Stores `value`, replacing a value that was not read yet.
    pub fn publish(&mut self, value: T)
        ensures
            final(self)@ == published(old(self)@, value),
    {
        self.slot = Some(value);
    }

    /// Whether a value was published since the last read. Never waits.
    pub fn has_pending(&self) -> (pending: bool)
        ensures
            pending == (self@ is Some),
    {
        self.slot.is_some()
    }

    /// The read of a task that does not wait: takes the pending value out and
    /// leaves the mailbox empty. `None` says that nothing was published since
    /// the last read, which is where a waiting reader suspends.
    pub fn try_wait(&mut self) -> (value: Option<T>)
        ensures
            value == delivered(old(self)@),
            final(self)@ == drained(old(self)@),
    {
        self.slot.take()
    }

    /// Discards a pending value.
    pub fn reset(&mut self)
        ensures
            final(self)@ is None,
    {
        self.slot = None;
    }
}

/// After any number of publications with no read in between, the slot holds the
/// last one of them, and nothing else.
pub proof fn lemma_latest_wins<T>(slot: Option<T>, values: Seq<T>)
    requires
        values.len() > 0,
    ensures
        published_all(slot, values) == Some(values.last()),
{
}

/// Three values published in a row: the next read hands out the third, and the
/// read after that finds the mailbox empty, so the first two are never seen.
pub proof fn lemma_overwrite<T>(slot: Option<T>, v1: T, v2: T, v3: T)
    ensures
        delivered(published(published(published(slot, v1), v2), v3)) == Some(v3),
        delivered(drained(published(published(published(slot, v1), v2), v3))) is None,
{
}

/// A value is read at most once: the read that follows a read, with no
/// publication in between, hands out nothing.
pub proof fn lemma_read_once<T>(slot: Option<T>)
    ensures
        delivered(drained(slot)) is None,
{
}

/// What a task does to a mailbox.
pub enum MailOp<T> {
    /// It publishes a value.
    Publish(T),
    /// It reads.
    Read,
}

/// A mailbox with its past: what it holds, all values that were published, in
/// order, all values that were read, in order, and for each value that was
/// read its place among the published ones.
pub struct Story<T> {
    pub slot: Option<T>,
    pub published: Seq<T>,
    pub seen: Seq<T>,
    pub seen_at: Seq<int>,
}

/// The story after one more operation.
pub open spec fn after_op<T>(story: Story<T>, op: MailOp<T>) -> Story<T> {
    match op {
        MailOp::Publish(value) => Story {
            slot: published(story.slot, value),
            published: story.published.push(value),
            ..story
        },
        MailOp::Read => match delivered(story.slot) {
            Some(value) => Story {
                slot: drained(story.slot),
                published: story.published,
                seen: story.seen.push(value),
                seen_at: story.seen_at.push(story.published.len() - 1),
            },
            None => story,
        },
    }
}

/// The story of an empty mailbox after `ops`.
pub open spec fn after_ops<T>(ops: Seq<MailOp<T>>) -> Story<T>
    decreases ops.len(),
{
    if ops.len() == 0 {
        Story { slot: None, published: Seq::empty(), seen: Seq::empty(), seen_at: Seq::empty() }
    } else {
        after_op(after_ops(ops.drop_last()), ops.last())
    }
}

/// However publications and reads are interleaved, a reader sees some of the
/// published values, each at most once, and in the order of their publication:
/// every value read is the one published at its place, and the places rise.
/// A pending value is always the one published last.
pub proof fn lemma_reads_follow_publications<T>(ops: Seq<MailOp<T>>)
    ensures
        ({
            let story = after_ops(ops);
            &&& story.seen.len() == story.seen_at.len()
            &&& forall|k: int|
                0 <= k < story.seen.len() ==> 0 <= #[trigger] story.seen_at[k]
                    < story.published.len() && story.published[story.seen_at[k]] == story.seen[k]
            &&& forall|j: int, k: int|
                0 <= j < k < story.seen.len() ==> story.seen_at[j] < story.seen_at[k]
            &&& story.slot is Some ==> story.published.len() > 0 && story.slot == Some(
                story.published.last(),
            )
            &&& story.slot is Some && story.seen.len() > 0 ==> story.seen_at.last()
                < story.published.len() - 1
        }),
    decreases ops.len(),
{
    if ops.len() > 0 {
        lemma_reads_follow_publications(ops.drop_last());
    }
}

} // verus!
