use vstd::prelude::*;

verus! {

/// The last message the producer sends; it sends `1..=LAST_MESSAGE`.
pub const LAST_MESSAGE: u32 = 10;

/// The producer's side of the broadcast demo: which message goes out next.
pub struct Producer {
    next: u32,
}

/// One step of a producer whose next message is `next`: the message it sends
/// (none once it is done) and its next message afterwards.
pub open spec fn producer_step(next: u32) -> (Option<u32>, u32) {
    if next <= LAST_MESSAGE {
        (Some(next), (next + 1) as u32)
    } else {
        (None, next)
    }
}

/// The messages that `k` steps send, starting with `next`.
pub open spec fn sent_in(next: u32, k: nat) -> Seq<u32>
    decreases k,
{
    if k == 0 {
        Seq::empty()
    } else {
        let (m, after) = producer_step(next);
        let rest = sent_in(after, (k - 1) as nat);
        match m {
            Some(v) => seq![v] + rest,
            None => rest,
        }
    }
}

impl Producer {
    /// A producer that has sent nothing yet.
    pub fn new() -> (p: Self)
        ensures
            p.next() == 1,
    {
        Producer { next: 1 }
    }

    /// The next message to send.
    pub closed spec fn next(&self) -> u32 {
        self.next
    }

    /// The message to send now, or `None` once all have gone out.
    pub fn next_message(&mut self) -> (m: Option<u32>)
        ensures
            (m, final(self).next()) == producer_step(old(self).next()),
    {
        if self.next <= LAST_MESSAGE {
            let m = self.next;
            self.next = m + 1;
            Some(m)
        } else {
            None
        }
    }
}

/// However often it is asked, a fresh producer sends `1, 2, ..., 10` in
/// order and nothing else: `k` steps send the first `min(k, 10)` of them.
pub proof fn lemma_producer_sends_one_to_ten(k: nat)
    ensures
        sent_in(1, k) == Seq::new(
            if k < LAST_MESSAGE { k } else { LAST_MESSAGE as nat },
            |i: int| (i + 1) as u32,
        ),
{
    lemma_sent_from(1, k);
}

/// `k` steps from `next` send the messages `next, next + 1, ...` up to the last.
proof fn lemma_sent_from(next: u32, k: nat)
    requires
        1 <= next <= LAST_MESSAGE + 1,
    ensures
        ({
            let left: nat = (LAST_MESSAGE + 1 - next) as nat;
            sent_in(next, k) == Seq::new(
                if k < left { k } else { left },
                |i: int| (next + i) as u32,
            )
        }),
    decreases k,
{
    let left: nat = (LAST_MESSAGE + 1 - next) as nat;
    if k == 0 {
        assert(sent_in(next, k) =~= Seq::new(0, |i: int| (next + i) as u32));
    } else if next <= LAST_MESSAGE {
        lemma_sent_from((next + 1) as u32, (k - 1) as nat);
        assert(sent_in(next, k) =~= Seq::new(
            if k < left { k } else { left },
            |i: int| (next + i) as u32,
        ));
    } else {
        lemma_sent_from(next, (k - 1) as nat);
        assert(sent_in(next, k) =~= Seq::new(0, |i: int| (next + i) as u32));
    }
}

/// Why a receive failed: the channel closed, or the receiver fell behind by
/// the given number of messages.
pub enum RecvFailure {
    Closed,
    Lagged(u64),
}

/// What a consumer does with the outcome of one receive.
pub enum ConsumerStep {
    /// Log the value and wait for the next.
    Log(u32),
    /// Log the failure and stop listening.
    Stop(RecvFailure),
}

/// The consumer's decision: a received value is logged and the consumer
/// goes on; any failure, closing or lagging, ends it.
pub fn consume_step(received: Result<u32, RecvFailure>) -> (s: ConsumerStep)
    ensures
        match received {
            Ok(v) => s == ConsumerStep::Log(v),
            Err(e) => s == ConsumerStep::Stop(e),
        },
{
    match received {
        Ok(v) => ConsumerStep::Log(v),
        Err(e) => ConsumerStep::Stop(e),
    }
}

} // verus!
