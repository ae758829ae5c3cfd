use vstd::prelude::*;
use std::time::Instant;
use crate::decimal::{decimal, decimal_bytes, digits_value, is_digit, lemma_decimal_round_trip};

verus! {

#[verifier::external_type_specification]
#[verifier::external_body]
pub struct ExInstant(Instant);

/// Calls `std::time::Instant::now`.  The clock decides the result, so
/// nothing is promised of it.
#[verifier::external_body]
fn instant_now() -> Instant {
    Instant::now()
}

/// The whole nanoseconds from `earlier` to `now`, zero if `earlier` is the later one.
pub uninterp spec fn elapsed_nanos(now: Instant, earlier: Instant) -> u128;

/// Calls `Instant::saturating_duration_since` and converts the duration to
/// whole nanoseconds.  Claims that the result is `elapsed_nanos` of the two
/// instants, in that order; what that number is is left to the name.
#[verifier::external_body]
fn nanos_between(now: &Instant, earlier: &Instant) -> (r: u128)
    ensures
        r == elapsed_nanos(*now, *earlier),
{
    now.saturating_duration_since(*earlier).as_nanos()
}

/// How long a `MyBody` waits between two frames: one second, in nanoseconds.
pub const FRAME_INTERVAL_NANOS: u128 = 1_000_000_000;

/// The bytes `"count: "`.
pub open spec fn frame_prefix() -> Seq<u8> {
    seq![99u8, 111u8, 117u8, 110u8, 116u8, 58u8, 32u8]
}

/// The frame that reports the counter `count`: `"count: <count>\n"`.
pub open spec fn count_frame(count: nat) -> Seq<u8> {
    frame_prefix() + decimal(count) + seq![10u8]
}

/// Every frame reads `"count: "`, then ASCII digits that spell its count in
/// base ten with no leading zero, then a newline: the digits between the
/// seven-byte prefix and the final newline read back as the count.
pub proof fn lemma_frame_spells_its_count(count: nat)
    ensures
        ({
            let f = count_frame(count);
            let digits = f.subrange(7, f.len() - 1);
            &&& f.len() >= 9
            &&& f.subrange(0, 7) == seq![99u8, 111u8, 117u8, 110u8, 116u8, 58u8, 32u8]
            &&& f.last() == 10u8
            &&& digits_value(digits) == count
            &&& forall|i: int| 0 <= i < digits.len() ==> is_digit(#[trigger] digits[i])
            &&& digits[0] == 48u8 ==> count == 0
        }),
{
    lemma_decimal_round_trip(count);
    let f = count_frame(count);
    assert(f.subrange(7, f.len() - 1) =~= decimal(count));
    assert(f.subrange(0, 7) =~= seq![99u8, 111u8, 117u8, 110u8, 116u8, 58u8, 32u8]);
}

/// The bytes of a frame, if any.
pub open spec fn frame_bytes(frame: Option<Vec<u8>>) -> Option<Seq<u8>> {
    match frame {
        Some(f) => Some(f@),
        None => None,
    }
}

/// What one poll may do to a body: send the frame for its count, raise the
/// count by one and restart the clock at an instant more than a second after
/// the last frame; or send nothing and leave the body as it was.
pub open spec fn poll_frame_step(before: MyBody, after: MyBody, frame: Option<Seq<u8>>) -> bool {
    match frame {
        Some(f) => {
            &&& f == count_frame(before.count())
            &&& after.count() == before.count() + 1
            &&& elapsed_nanos(after.last_send_time(), before.last_send_time()) > FRAME_INTERVAL_NANOS
        },
        None => after == before,
    }
}

/// The frames sent along a run of polls, in order.
pub open spec fn sent_frames(frames: Seq<Option<Seq<u8>>>) -> Seq<Seq<u8>>
    decreases frames.len(),
{
    if frames.len() == 0 {
        Seq::empty()
    } else {
        let earlier = sent_frames(frames.drop_last());
        match frames.last() {
            Some(f) => earlier.push(f),
            None => earlier,
        }
    }
}

/// A response body that, once more than a second has passed since its last
/// frame, sends the next frame `"count: <n>\n"` with `n` counting up from 0.
pub struct MyBody {
    count: usize,
    last_send_time: Instant,
}

/// Spells the frame for `count`.
pub fn count_frame_bytes(count: usize) -> (r: Vec<u8>)
    ensures
        r@ == count_frame(count as nat),
        digits_value(r@.subrange(7, r@.len() - 1)) == count,
{
    proof {
        lemma_frame_spells_its_count(count as nat);
    }
    let mut frame: Vec<u8> = Vec::new();
    frame.push(99u8);
    frame.push(111u8);
    frame.push(117u8);
    frame.push(110u8);
    frame.push(116u8);
    frame.push(58u8);
    frame.push(32u8);
    let mut digits = decimal_bytes(count);
    frame.append(&mut digits);
    frame.push(10u8);
    assert(frame@ =~= count_frame(count as nat));
    frame
}

/// A body whose counter starts at 0 and whose clock starts now.
pub fn get_response() -> (b: MyBody)
    ensures
        b.count() == 0,
{
    MyBody { count: 0, last_send_time: instant_now() }
}

impl MyBody {
    /// The number of frames sent so far.
    pub closed spec fn count(&self) -> nat {
        self.count as nat
    }

    /// When the last frame was sent (or the body was made).
    pub closed spec fn last_send_time(&self) -> Instant {
        self.last_send_time
    }

    /// The number of frames sent so far.
    pub fn frames_sent(&self) -> (n: usize)
        ensures
            n == self.count(),
    {
        self.count
    }

    /// The decision of one poll, given the time `now` and the nanoseconds
    /// `elapsed` since the last frame: past the interval, send the next frame
    /// and restart the clock at `now`; otherwise send nothing and change nothing.
    pub fn advance(&mut self, now: Instant, elapsed: u128) -> (frame: Option<Vec<u8>>)
        requires
            old(self).count() < usize::MAX,
        ensures
            elapsed > FRAME_INTERVAL_NANOS ==> {
                &&& frame matches Some(f) && f@ == count_frame(old(self).count())
                &&& final(self).count() == old(self).count() + 1
                &&& final(self).last_send_time() == now
            },
            elapsed <= FRAME_INTERVAL_NANOS ==> frame is None && *final(self) == *old(self),
    {
        if elapsed > FRAME_INTERVAL_NANOS {
            let count = self.count;
            self.count = count + 1;
            self.last_send_time = now;
            Some(count_frame_bytes(count))
        } else {
            None
        }
    }

    /// One poll of the body: reads the clock and, as [`MyBody::advance`]
    /// decides, sends the next frame if more than a second has passed since
    /// the last one (restarting the clock at the reading), and nothing otherwise.
    pub fn poll_frame(&mut self) -> (frame: Option<Vec<u8>>)
        requires
            old(self).count() < usize::MAX,
        ensures
            exists|now: Instant|
                (#[trigger] elapsed_nanos(now, old(self).last_send_time()) > FRAME_INTERVAL_NANOS)
                    == (frame is Some) && (frame is Some ==> final(self).last_send_time() == now),
            poll_frame_step(*old(self), *final(self), frame_bytes(frame)),
    {
        let now = instant_now();
        let elapsed = nanos_between(&now, &self.last_send_time);
        assert(elapsed_nanos(now, self.last_send_time()) == elapsed);
        self.advance(now, elapsed)
    }

    /// The stream never ends by itself.
    pub fn is_end_stream(&self) -> (r: bool)
        ensures
            !r,
    {
        false
    }
}

/// Whether `states` and `frames` are a run of polls: `frames[i]` is what the
/// poll that took `states[i]` to `states[i + 1]` sent.
pub open spec fn is_poll_run(states: Seq<MyBody>, frames: Seq<Option<Seq<u8>>>) -> bool {
    &&& states.len() == frames.len() + 1
    &&& forall|i: int|
        0 <= i < frames.len() ==> #[trigger] poll_frame_step(states[i], states[i + 1], frames[i])
}

/// Along a run of polls of a body that has sent nothing (as `get_response`
/// makes it), the k-th frame sent is `"count: k\n"`, the body's count is the
/// number of frames sent so far, and two successive frames are sent at
/// instants more than a second apart.
pub proof fn lemma_polls_count_frames(states: Seq<MyBody>, frames: Seq<Option<Seq<u8>>>)
    requires
        is_poll_run(states, frames),
        states[0].count() == 0,
    ensures
        states.last().count() == sent_frames(frames).len(),
        forall|j: int|
            0 <= j < sent_frames(frames).len() ==> #[trigger] sent_frames(frames)[j]
                == count_frame(j as nat),
        forall|i: int, k: int|
            #![trigger frames[i], frames[k]]
            0 <= i < k < frames.len() && frames[i] is Some && frames[k] is Some && (forall|m: int|
                i < m < k ==> #[trigger] frames[m] is None) ==> elapsed_nanos(
                states[k + 1].last_send_time(),
                states[i + 1].last_send_time(),
            ) > FRAME_INTERVAL_NANOS,
    decreases frames.len(),
{
    if frames.len() > 0 {
        let n = frames.len() - 1;
        let ps = states.drop_last();
        let pf = frames.drop_last();
        assert forall|i: int| 0 <= i < pf.len() implies #[trigger] poll_frame_step(
            ps[i],
            ps[i + 1],
            pf[i],
        ) by {
            assert(poll_frame_step(states[i], states[i + 1], frames[i]));
        }
        lemma_polls_count_frames(ps, pf);
        assert(poll_frame_step(states[n], states[n + 1], frames[n]));
        assert(states.last() == states[n + 1]);
        assert(ps.last() == states[n]);
        assert(pf == frames.drop_last());
        assert forall|i: int, k: int|
            #![trigger frames[i], frames[k]]
            0 <= i < k < frames.len() && frames[i] is Some && frames[k] is Some && (forall|m: int|
                i < m < k ==> #[trigger] frames[m] is None) implies elapsed_nanos(
            states[k + 1].last_send_time(),
            states[i + 1].last_send_time(),
        ) > FRAME_INTERVAL_NANOS by {
            lemma_quiet_span(states, frames, i, k);
            assert(poll_frame_step(states[k], states[k + 1], frames[k]));
        }
    }
}

/// Polls that send nothing leave the body as it was.
proof fn lemma_quiet_span(states: Seq<MyBody>, frames: Seq<Option<Seq<u8>>>, i: int, k: int)
    requires
        is_poll_run(states, frames),
        0 <= i < k < frames.len(),
        forall|m: int| i < m < k ==> #[trigger] frames[m] is None,
    ensures
        states[k] == states[i + 1],
    decreases k - i,
{
    if k > i + 1 {
        lemma_quiet_span(states, frames, i, k - 1);
        let j = k - 1;
        assert(frames[j] is None);
        assert(poll_frame_step(states[j], states[j + 1], frames[j]));
    }
}

} // verus!
