use vstd::prelude::*;
use crate::register::AccessPattern;
use crate::register::StatusRegister;
use crate::register::Subpage;

verus! {

/// What the bus reported back after the driver performed an action.
#[derive(Clone, Copy, Debug, PartialEq, Eq, Structural)]
pub enum BusEvent {
    /// The status register was read and held this value.
    StatusRead(StatusRegister),
    /// The status register was written.
    StatusWritten,
    /// Control went back to the executor once and has now returned.
    Yielded,
    /// A subpage was read from RAM and turned into an image.
    SubpageCaptured,
    /// The transfer the last action asked for failed on the bus.
    TransferFailed,
}

/// What the driver should do next.
#[derive(Clone, Copy, Debug, PartialEq, Eq, Structural)]
pub enum BusAction {
    ReadStatus,
    WriteStatus(StatusRegister),
    /// Yield to the executor before polling again.
    Yield,
    /// Read the pixel RAM of this subpage, laid out in this pattern, and process it.
    CaptureSubpage(Subpage, AccessPattern),
    /// The operation is over; the flag is its result.
    Finish(bool),
    /// A transfer failed: give up and report the failure, with nothing more on the bus.
    Abort,
}

/// The status register value written to start a fresh measurement: the
/// new-data flag cleared, overwriting enabled and the start bit set, every
/// other bit as it was read.
pub open spec fn spec_armed(r: StatusRegister) -> StatusRegister {
    r.spec_with_new_data(false).spec_with_overwrite_enabled(true).spec_with_start_measurement(true)
}

pub fn armed(r: &StatusRegister) -> (w: StatusRegister)
    ensures
        w == spec_armed(*r),
        !w.spec_new_data(),
        w.spec_overwrite_enabled(),
        w.spec_start_measurement(),
        w.spec_last_updated_subpage() == r.spec_last_updated_subpage(),
        w.raw & !0x0038u16 == r.raw & !0x0038u16,
        w.raw & 0x0038u16 == 0x0030u16,
{
    let mut w = *r;
    let r0 = r.raw;
    w.reset_new_data();
    let r1 = w.raw;
    w.set_overwrite_enabled(true);
    let r2 = w.raw;
    w.set_start_measurement();
    let r3 = w.raw;
    assert(r3 & !0x0038u16 == r0 & !0x0038u16 && r3 & 0x0038u16 == 0x0030u16) by (bit_vector)
        requires
            r1 & !0x0008u16 == r0 & !0x0008u16,
            r2 & !0x0010u16 == r1 & !0x0010u16,
            r3 & !0x0020u16 == r2 & !0x0020u16,
            r1 & 0x0008u16 == 0u16,
            r2 & 0x0010u16 != 0u16,
            r3 & 0x0020u16 != 0u16,
    ;
    w
}

/// Where `synchronize` stands.
#[derive(Clone, Copy, Debug, PartialEq, Eq, Structural)]
pub enum SyncState {
    /// Waiting for the first read of the status register.
    Start,
    /// The armed status register is being written.
    Arming,
    /// Polling the status register for the fresh measurement.
    Polling,
    Done,
    /// A transfer failed and the operation was given up.
    Aborted,
}

/// Whether `event` is one that the action issued in `state` can produce.
pub open spec fn sync_accepts(state: SyncState, event: BusEvent) -> bool {
    match state {
        SyncState::Start => event is StatusRead || event is TransferFailed,
        SyncState::Arming => event is StatusWritten || event is TransferFailed,
        SyncState::Polling => event is StatusRead || event is Yielded || event is TransferFailed,
        SyncState::Done => false,
        SyncState::Aborted => false,
    }
}

pub fn synchronize_accepts(state: SyncState, event: BusEvent) -> (b: bool)
    ensures
        b == sync_accepts(state, event),
{
    match state {
        SyncState::Start => matches!(event, BusEvent::StatusRead(_) | BusEvent::TransferFailed),
        SyncState::Arming => matches!(event, BusEvent::StatusWritten | BusEvent::TransferFailed),
        SyncState::Polling => matches!(event, BusEvent::StatusRead(_) | BusEvent::Yielded | BusEvent::TransferFailed),
        SyncState::Done => false,
        SyncState::Aborted => false,
    }
}

/// One decision of `synchronize`: the first status read is answered by writing
/// it back armed (any pending new data is dropped and a measurement started);
/// after that the status register is polled, yielding between polls, until it
/// reports new data. A failed transfer ends the operation at once.
pub open spec fn spec_sync_step(state: SyncState, event: BusEvent) -> (SyncState, BusAction) {
    if event is TransferFailed {
        (SyncState::Aborted, BusAction::Abort)
    } else {
        match state {
            SyncState::Start => match event {
                BusEvent::StatusRead(r) => (SyncState::Arming, BusAction::WriteStatus(spec_armed(r))),
                _ => (state, BusAction::Abort),
            },
            SyncState::Arming => (SyncState::Polling, BusAction::ReadStatus),
            SyncState::Polling => match event {
                BusEvent::StatusRead(r) => if r.spec_new_data() {
                    (SyncState::Done, BusAction::Finish(true))
                } else {
                    (SyncState::Polling, BusAction::Yield)
                },
                _ => (SyncState::Polling, BusAction::ReadStatus),
            },
            _ => (state, BusAction::Abort),
        }
    }
}

/// The first step of `synchronize`: read the status register.
pub fn synchronize_start() -> (r: (SyncState, BusAction))
    ensures
        r == (SyncState::Start, BusAction::ReadStatus),
{
    (SyncState::Start, BusAction::ReadStatus)
}

/// The next state and action of `synchronize` after `event`.
pub fn synchronize_step(state: SyncState, event: BusEvent) -> (r: (SyncState, BusAction))
    requires
        sync_accepts(state, event),
    ensures
        r == spec_sync_step(state, event),
        r.1 is Finish ==> (r.0 == SyncState::Done && state == SyncState::Polling),
        r.0 == SyncState::Done ==> (event matches BusEvent::StatusRead(p) && p.spec_new_data()),
        (r.1 == BusAction::Abort) <==> (event is TransferFailed),
        event is TransferFailed ==> r.0 == SyncState::Aborted,
        r.1 is WriteStatus ==> (state == SyncState::Start && event is StatusRead),
{
    if let BusEvent::TransferFailed = event {
        return (SyncState::Aborted, BusAction::Abort);
    }
    match state {
        SyncState::Start => match event {
            BusEvent::StatusRead(r) => (SyncState::Arming, BusAction::WriteStatus(armed(&r))),
            _ => (state, BusAction::Abort),
        },
        SyncState::Arming => (SyncState::Polling, BusAction::ReadStatus),
        SyncState::Polling => match event {
            BusEvent::StatusRead(r) => if r.new_data() {
                (SyncState::Done, BusAction::Finish(true))
            } else {
                (SyncState::Polling, BusAction::Yield)
            },
            _ => (SyncState::Polling, BusAction::ReadStatus),
        },
        _ => (state, BusAction::Abort),
    }
}

/// Whether every event of `events` is accepted by the state it arrives in, starting from `state`.
pub open spec fn sync_run_valid(state: SyncState, events: Seq<BusEvent>) -> bool
    decreases events.len(),
{
    events.len() == 0 || (sync_accepts(state, events[0]) && sync_run_valid(
        spec_sync_step(state, events[0]).0,
        events.drop_first(),
    ))
}

/// The state reached from `state` after `events`.
pub open spec fn sync_run(state: SyncState, events: Seq<BusEvent>) -> SyncState
    decreases events.len(),
{
    if events.len() == 0 {
        state
    } else {
        sync_run(spec_sync_step(state, events[0]).0, events.drop_first())
    }
}

/// A status read that reports no new data.
pub open spec fn is_stale_poll(e: BusEvent) -> bool {
    e is Yielded || (e matches BusEvent::StatusRead(q) && !q.spec_new_data())
}

proof fn lemma_polling_run(events: Seq<BusEvent>)
    requires
        sync_run_valid(SyncState::Polling, events),
        sync_run(SyncState::Polling, events) == SyncState::Done,
    ensures
        events.len() >= 1,
        events.last() matches BusEvent::StatusRead(p) && p.spec_new_data(),
        forall|k: int| 0 <= k < events.len() - 1 ==> is_stale_poll(#[trigger] events[k]),
    decreases events.len(),
{
    if events.len() == 0 {
    } else {
        let e = events[0];
        let next = spec_sync_step(SyncState::Polling, e).0;
        if next == SyncState::Done || next == SyncState::Aborted {
            if events.len() > 1 {
                assert(sync_run_valid(next, events.drop_first()));
                assert(!sync_accepts(next, events.drop_first()[0]));
            } else {
                assert(events.drop_first().len() == 0);
                assert(sync_run(next, events.drop_first()) == next);
                assert(sync_run(SyncState::Polling, events) == sync_run(next, events.drop_first()));
                assert(events.last() == e);
            }
        } else {
            lemma_polling_run(events.drop_first());
            assert forall|k: int| 0 <= k < events.len() - 1 implies is_stale_poll(#[trigger] events[k]) by {
                if k > 0 {
                    assert(events[k] == events.drop_first()[k - 1]);
                }
            }
            assert(events.last() == events.drop_first().last());
        }
    }
}

/// `synchronize` finishes only after it has read the status register, written
/// it back armed, seen the write done, polled (yielding in between) through
/// reads without new data, and finally read a status register that reports new
/// data: any data pending at the start is ignored.
pub proof fn law_synchronize_waits_for_fresh_data(events: Seq<BusEvent>)
    requires
        sync_run_valid(SyncState::Start, events),
        sync_run(SyncState::Start, events) == SyncState::Done,
    ensures
        events.len() >= 3,
        events[0] is StatusRead,
        spec_sync_step(SyncState::Start, events[0]).1 == BusAction::WriteStatus(spec_armed(events[0]->StatusRead_0)),
        events[1] is StatusWritten,
        events.last() matches BusEvent::StatusRead(p) && p.spec_new_data(),
        forall|k: int| 2 <= k < events.len() - 1 ==> is_stale_poll(#[trigger] events[k]),
{
    assert(events.len() > 0);
    let rest = events.drop_first();
    let s1 = spec_sync_step(SyncState::Start, events[0]).0;
    assert(sync_run_valid(s1, rest));
    assert(sync_run(s1, rest) == SyncState::Done);
    if s1 == SyncState::Aborted {
        if rest.len() > 0 {
            assert(!sync_accepts(s1, rest[0]));
        }
    }
    assert(s1 == SyncState::Arming);
    assert(rest.len() > 0);
    assert(sync_accepts(SyncState::Arming, rest[0]));
    let rest2 = rest.drop_first();
    assert(rest[0] == events[1]);
    let s2 = spec_sync_step(SyncState::Arming, rest[0]).0;
    assert(sync_run_valid(s2, rest2));
    assert(sync_run(s2, rest2) == SyncState::Done);
    if s2 == SyncState::Aborted {
        if rest2.len() > 0 {
            assert(!sync_accepts(s2, rest2[0]));
        }
    }
    assert(s2 == SyncState::Polling);
    lemma_polling_run(rest2);
    assert forall|k: int| 2 <= k < events.len() - 1 implies is_stale_poll(#[trigger] events[k]) by {
        assert(events[k] == rest2[k - 2]);
    }
    assert(events.last() == rest2.last());
}

/// The state a run has reached before its `k`-th event accepts that event, and
/// the rest of the run is valid from the state that event leads to.
proof fn lemma_sync_run_prefix(state: SyncState, events: Seq<BusEvent>, k: int)
    requires
        sync_run_valid(state, events),
        0 <= k < events.len(),
    ensures
        sync_accepts(sync_run(state, events.take(k)), events[k]),
        sync_run_valid(spec_sync_step(sync_run(state, events.take(k)), events[k]).0, events.skip(k + 1)),
    decreases k,
{
    if k == 0 {
        assert(events.take(0) =~= Seq::<BusEvent>::empty());
        assert(events.skip(1) =~= events.drop_first());
    } else {
        let next = spec_sync_step(state, events[0]).0;
        let tail = events.drop_first();
        lemma_sync_run_prefix(next, tail, k - 1);
        let pre = events.take(k);
        assert(pre.len() > 0 && pre[0] == events[0]);
        assert(pre.drop_first() =~= tail.take(k - 1));
        assert(sync_run(state, pre) == sync_run(next, tail.take(k - 1)));
        assert(tail.skip(k) =~= events.skip(k + 1));
        assert(tail[k - 1] == events[k]);
    }
}

/// A failed transfer ends `synchronize`: it is the last event of any run, it is
/// answered by `Abort`, and so nothing more is read or written after it.
pub proof fn law_synchronize_stops_on_failure(events: Seq<BusEvent>, k: int)
    requires
        sync_run_valid(SyncState::Start, events),
        0 <= k < events.len(),
        events[k] is TransferFailed,
    ensures
        k == events.len() - 1,
        spec_sync_step(sync_run(SyncState::Start, events.take(k)), events[k]) == (SyncState::Aborted, BusAction::Abort),
{
    lemma_sync_run_prefix(SyncState::Start, events, k);
    let rest = events.skip(k + 1);
    if rest.len() > 0 {
        assert(!sync_accepts(SyncState::Aborted, rest[0]));
    }
}

/// Where `generate_image_if_ready` stands.
#[derive(Clone, Copy, Debug, PartialEq, Eq, Structural)]
pub enum ImageState {
    /// Waiting for the status register.
    Start,
    /// A subpage is being captured; the status register read at the start is kept.
    Capturing(StatusRegister),
    /// The acknowledging write of the status register is under way.
    Acknowledging,
    Done,
    /// A transfer failed and the operation was given up.
    Aborted,
}

/// Whether `event` is one that the action issued in `state` can produce.
pub open spec fn image_accepts(state: ImageState, event: BusEvent) -> bool {
    match state {
        ImageState::Start => event is StatusRead || event is TransferFailed,
        ImageState::Capturing(_) => event is SubpageCaptured || event is TransferFailed,
        ImageState::Acknowledging => event is StatusWritten || event is TransferFailed,
        ImageState::Done => false,
        ImageState::Aborted => false,
    }
}

pub fn image_if_ready_accepts(state: ImageState, event: BusEvent) -> (b: bool)
    ensures
        b == image_accepts(state, event),
{
    match state {
        ImageState::Start => matches!(event, BusEvent::StatusRead(_) | BusEvent::TransferFailed),
        ImageState::Capturing(_) => matches!(event, BusEvent::SubpageCaptured | BusEvent::TransferFailed),
        ImageState::Acknowledging => matches!(event, BusEvent::StatusWritten | BusEvent::TransferFailed),
        ImageState::Done => false,
        ImageState::Aborted => false,
    }
}

/// One decision of `generate_image_if_ready`: without new data it finishes with
/// `false`; with new data it captures the subpage last measured, in the access
/// pattern the driver tracks, then clears the new-data flag in the register it
/// read and finishes with `true`. A failed transfer ends the operation at once,
/// so after a failed capture the new-data flag stays set.
pub open spec fn spec_image_step(state: ImageState, event: BusEvent, pattern: AccessPattern) -> (ImageState, BusAction) {
    if event is TransferFailed {
        (ImageState::Aborted, BusAction::Abort)
    } else {
        match state {
            ImageState::Start => match event {
                BusEvent::StatusRead(r) => if r.spec_new_data() {
                    (ImageState::Capturing(r), BusAction::CaptureSubpage(r.spec_last_updated_subpage(), pattern))
                } else {
                    (ImageState::Done, BusAction::Finish(false))
                },
                _ => (state, BusAction::Abort),
            },
            ImageState::Capturing(r) => (ImageState::Acknowledging, BusAction::WriteStatus(r.spec_with_new_data(false))),
            ImageState::Acknowledging => (ImageState::Done, BusAction::Finish(true)),
            _ => (state, BusAction::Abort),
        }
    }
}

/// The first step of `generate_image_if_ready`: read the status register.
pub fn image_if_ready_start() -> (r: (ImageState, BusAction))
    ensures
        r == (ImageState::Start, BusAction::ReadStatus),
{
    (ImageState::Start, BusAction::ReadStatus)
}

/// The next state and action of `generate_image_if_ready` after `event`, for a
/// driver that tracks the access pattern `pattern`.
pub fn image_if_ready_step(state: ImageState, event: BusEvent, pattern: AccessPattern) -> (r: (ImageState, BusAction))
    requires
        image_accepts(state, event),
    ensures
        r == spec_image_step(state, event, pattern),
        r.1 matches BusAction::WriteStatus(w) ==> !w.spec_new_data(),
        r.1 is WriteStatus ==> (state is Capturing && event is SubpageCaptured),
        r.1 == BusAction::Finish(true) ==> state == ImageState::Acknowledging,
        r.1 == BusAction::Finish(false) ==> (event matches BusEvent::StatusRead(p) && !p.spec_new_data()),
        (r.1 == BusAction::Abort) <==> (event is TransferFailed),
        event is TransferFailed ==> r.0 == ImageState::Aborted,
{
    if let BusEvent::TransferFailed = event {
        return (ImageState::Aborted, BusAction::Abort);
    }
    match state {
        ImageState::Start => match event {
            BusEvent::StatusRead(r) => if r.new_data() {
                (ImageState::Capturing(r), BusAction::CaptureSubpage(r.last_updated_subpage(), pattern))
            } else {
                (ImageState::Done, BusAction::Finish(false))
            },
            _ => (state, BusAction::Abort),
        },
        ImageState::Capturing(r) => {
            let mut w = r;
            w.reset_new_data();
            (ImageState::Acknowledging, BusAction::WriteStatus(w))
        },
        ImageState::Acknowledging => (ImageState::Done, BusAction::Finish(true)),
        _ => (state, BusAction::Abort),
    }
}

/// Whether every event of `events` is accepted by the state it arrives in, starting from `state`.
pub open spec fn image_run_valid(state: ImageState, events: Seq<BusEvent>, pattern: AccessPattern) -> bool
    decreases events.len(),
{
    events.len() == 0 || (image_accepts(state, events[0]) && image_run_valid(
        spec_image_step(state, events[0], pattern).0,
        events.drop_first(),
        pattern,
    ))
}

/// The state reached from `state` after `events`.
pub open spec fn image_run(state: ImageState, events: Seq<BusEvent>, pattern: AccessPattern) -> ImageState
    decreases events.len(),
{
    if events.len() == 0 {
        state
    } else {
        image_run(spec_image_step(state, events[0], pattern).0, events.drop_first(), pattern)
    }
}

/// The state a run has reached before its `k`-th event accepts that event, and
/// the rest of the run is valid from the state that event leads to.
proof fn lemma_image_run_prefix(state: ImageState, events: Seq<BusEvent>, pattern: AccessPattern, k: int)
    requires
        image_run_valid(state, events, pattern),
        0 <= k < events.len(),
    ensures
        image_accepts(image_run(state, events.take(k), pattern), events[k]),
        image_run_valid(
            spec_image_step(image_run(state, events.take(k), pattern), events[k], pattern).0,
            events.skip(k + 1),
            pattern,
        ),
    decreases k,
{
    if k == 0 {
        assert(events.take(0) =~= Seq::<BusEvent>::empty());
        assert(events.skip(1) =~= events.drop_first());
    } else {
        let next = spec_image_step(state, events[0], pattern).0;
        let tail = events.drop_first();
        lemma_image_run_prefix(next, tail, pattern, k - 1);
        let pre = events.take(k);
        assert(pre.len() > 0 && pre[0] == events[0]);
        assert(pre.drop_first() =~= tail.take(k - 1));
        assert(image_run(state, pre, pattern) == image_run(next, tail.take(k - 1), pattern));
        assert(tail.skip(k) =~= events.skip(k + 1));
        assert(tail[k - 1] == events[k]);
    }
}

/// A failed transfer ends `generate_image_if_ready`: it is the last event of any
/// run and is answered by `Abort`, so nothing more is read or written. In
/// particular a failed capture is never followed by the acknowledging write, and
/// the camera's new-data flag stays set.
pub proof fn law_image_if_ready_stops_on_failure(events: Seq<BusEvent>, pattern: AccessPattern, k: int)
    requires
        image_run_valid(ImageState::Start, events, pattern),
        0 <= k < events.len(),
        events[k] is TransferFailed,
    ensures
        k == events.len() - 1,
        spec_image_step(image_run(ImageState::Start, events.take(k), pattern), events[k], pattern)
            == (ImageState::Aborted, BusAction::Abort),
{
    lemma_image_run_prefix(ImageState::Start, events, pattern, k);
    let rest = events.skip(k + 1);
    if rest.len() > 0 {
        assert(!image_accepts(ImageState::Aborted, rest[0]));
    }
}

/// `generate_image_if_ready` reports `true` exactly when the status register it
/// read held new data. Then it captures the subpage that register names as last
/// measured and writes back that same register with only the new-data flag
/// cleared, so the camera may store the next measurement; otherwise it touches
/// nothing. If the capture fails, the operation is given up without writing.
pub proof fn law_image_if_ready(r: StatusRegister, pattern: AccessPattern)
    ensures
        ({
            let (s1, a1) = spec_image_step(ImageState::Start, BusEvent::StatusRead(r), pattern);
            if r.spec_new_data() {
                let (s2, a2) = spec_image_step(s1, BusEvent::SubpageCaptured, pattern);
                let (s3, a3) = spec_image_step(s2, BusEvent::StatusWritten, pattern);
                &&& a1 == BusAction::CaptureSubpage(r.spec_last_updated_subpage(), pattern)
                &&& a2 matches BusAction::WriteStatus(w) && !w.spec_new_data()
                    && w.raw & !0x0008u16 == r.raw & !0x0008u16 && w.raw & 0x0008u16 == 0u16
                &&& s3 == ImageState::Done && a3 == BusAction::Finish(true)
                &&& spec_image_step(s1, BusEvent::TransferFailed, pattern) == (ImageState::Aborted, BusAction::Abort)
            } else {
                s1 == ImageState::Done && a1 == BusAction::Finish(false)
            }
        }),
{
    crate::register::lemma_status_new_data_bits(r.raw, 0);
}

/// Whether `event` is a possible outcome of performing `action` on the bus: a
/// read ends with its value or a failure, a write or a capture with its
/// completion or a failure, a yield always returns, and finishing or aborting
/// performs nothing.
pub open spec fn answers(action: BusAction, event: BusEvent) -> bool {
    match action {
        BusAction::ReadStatus => event is StatusRead || event is TransferFailed,
        BusAction::WriteStatus(_) => event is StatusWritten || event is TransferFailed,
        BusAction::Yield => event is Yielded,
        BusAction::CaptureSubpage(_, _) => event is SubpageCaptured || event is TransferFailed,
        BusAction::Finish(_) => false,
        BusAction::Abort => false,
    }
}

/// `synchronize` accepts every outcome of the actions it issues: its first
/// action, and every action a step issues, is answered only by events the next
/// state accepts. So a driver that performs each action and reports its outcome
/// never feeds it an event it refuses.
pub proof fn law_synchronize_accepts_every_outcome(state: SyncState, event: BusEvent, outcome: BusEvent)
    requires
        sync_accepts(state, event),
    ensures
        answers(BusAction::ReadStatus, outcome) ==> sync_accepts(SyncState::Start, outcome),
        answers(spec_sync_step(state, event).1, outcome) ==> sync_accepts(spec_sync_step(state, event).0, outcome),
{
}

/// Every run of `synchronize` in which the camera answers the first read with
/// any register, completes the arming write and then reports new data on the
/// next poll is accepted and ends with `synchronize` done.
pub proof fn law_synchronize_completes(first: StatusRegister, polled: StatusRegister)
    requires
        polled.raw & 0x0008u16 != 0u16,
    ensures
        sync_run_valid(SyncState::Start, seq![BusEvent::StatusRead(first), BusEvent::StatusWritten, BusEvent::StatusRead(polled)]),
        sync_run(SyncState::Start, seq![BusEvent::StatusRead(first), BusEvent::StatusWritten, BusEvent::StatusRead(polled)]) == SyncState::Done,
{
    let e = seq![BusEvent::StatusRead(first), BusEvent::StatusWritten, BusEvent::StatusRead(polled)];
    assert(e.drop_first() =~= seq![BusEvent::StatusWritten, BusEvent::StatusRead(polled)]);
    assert(e.drop_first().drop_first() =~= seq![BusEvent::StatusRead(polled)]);
    assert(e.drop_first().drop_first().drop_first() =~= Seq::<BusEvent>::empty());
    let s3 = spec_sync_step(SyncState::Polling, BusEvent::StatusRead(polled)).0;
    assert(s3 == SyncState::Done);
    assert(sync_run_valid(s3, e.drop_first().drop_first().drop_first()));
    assert(sync_run_valid(SyncState::Polling, e.drop_first().drop_first()));
    assert(sync_run_valid(SyncState::Arming, e.drop_first()));
    assert(sync_run(s3, e.drop_first().drop_first().drop_first()) == SyncState::Done);
    assert(sync_run(SyncState::Polling, e.drop_first().drop_first()) == SyncState::Done);
    assert(sync_run(SyncState::Arming, e.drop_first()) == SyncState::Done);
}

/// `generate_image_if_ready` accepts every outcome of the actions it issues: its
/// first action, and every action a step issues, is answered only by events the
/// next state accepts.
pub proof fn law_image_if_ready_accepts_every_outcome(
    state: ImageState,
    event: BusEvent,
    pattern: AccessPattern,
    outcome: BusEvent,
)
    requires
        image_accepts(state, event),
    ensures
        answers(BusAction::ReadStatus, outcome) ==> image_accepts(ImageState::Start, outcome),
        answers(spec_image_step(state, event, pattern).1, outcome)
            ==> image_accepts(spec_image_step(state, event, pattern).0, outcome),
{
}

/// Every run of `generate_image_if_ready` in which the camera reports new data,
/// the subpage is captured and the acknowledging write completes is accepted and
/// ends with the operation done and `true` reported.
pub proof fn law_image_if_ready_completes(r: StatusRegister, pattern: AccessPattern)
    requires
        r.raw & 0x0008u16 != 0u16,
    ensures
        image_run_valid(ImageState::Start, seq![BusEvent::StatusRead(r), BusEvent::SubpageCaptured, BusEvent::StatusWritten], pattern),
        image_run(ImageState::Start, seq![BusEvent::StatusRead(r), BusEvent::SubpageCaptured, BusEvent::StatusWritten], pattern) == ImageState::Done,
        spec_image_step(ImageState::Acknowledging, BusEvent::StatusWritten, pattern).1 == BusAction::Finish(true),
{
    let e = seq![BusEvent::StatusRead(r), BusEvent::SubpageCaptured, BusEvent::StatusWritten];
    assert(e.drop_first() =~= seq![BusEvent::SubpageCaptured, BusEvent::StatusWritten]);
    assert(e.drop_first().drop_first() =~= seq![BusEvent::StatusWritten]);
    assert(e.drop_first().drop_first().drop_first() =~= Seq::<BusEvent>::empty());
    assert(image_run_valid(ImageState::Done, e.drop_first().drop_first().drop_first(), pattern));
    assert(image_run_valid(ImageState::Acknowledging, e.drop_first().drop_first(), pattern));
    assert(image_run_valid(ImageState::Capturing(r), e.drop_first(), pattern));
    assert(image_run(ImageState::Done, e.drop_first().drop_first().drop_first(), pattern) == ImageState::Done);
    assert(image_run(ImageState::Acknowledging, e.drop_first().drop_first(), pattern) == ImageState::Done);
    assert(image_run(ImageState::Capturing(r), e.drop_first(), pattern) == ImageState::Done);
}

} // verus!
