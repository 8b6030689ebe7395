//! Debouncing of the polled signing signal into touch lifecycle events.

use std::sync::atomic::AtomicBool;
use std::sync::atomic::Ordering;
use std::sync::Arc;
use vstd::prelude::*;

verus! {

/// Nanoseconds in one millisecond.
pub const NANOS_PER_MILLI: u64 = 1_000_000;

/// Time between two polls of the signal: 300 ms.
pub const POLL_INTERVAL_NANOS: u64 = 300_000_000;

/// How long the signal must hold before a touch is announced: 500 ms.
pub const GRACE_PERIOD_NANOS: u64 = 500_000_000;

/// A confirmed transition of the signal.
#[derive(Debug, Clone, Copy, PartialEq, Eq, Structural)]
pub enum DetectorEvent {
    TouchStarted,
    TouchCompleted,
}

/// Where the detector stands between two polls.
#[derive(Debug, Clone, Copy, PartialEq, Eq, Structural)]
pub enum DetectorState {
    /// No signing operation is in sight.
    Idle,
    /// The signal was first seen at the given time and may still go away
    /// before anybody could react.
    MaybePending(u64),
    /// A touch was announced and has not been completed.
    TouchPending,
}

/// One poll of the signal: what the probe said, and when. Times are
/// nanoseconds from a fixed origin on a monotonic clock.
#[derive(Debug, Clone, Copy, PartialEq, Eq, Structural)]
pub struct Sample {
    pub signal: bool,
    pub now: u64,
}

/// What one poll leads to.
#[derive(Debug, Clone, Copy, PartialEq, Eq, Structural)]
pub struct Transition {
    pub next: DetectorState,
    pub event: Option<DetectorEvent>,
}

/// Time elapsed at `now` since `since`; zero if the clock reads earlier.
pub open spec fn elapsed(since: u64, now: u64) -> int {
    if now >= since {
        now - since
    } else {
        0
    }
}

/// The state after polling `sample` in `state`.
pub open spec fn next_state(grace: u64, state: DetectorState, sample: Sample) -> DetectorState {
    match state {
        DetectorState::Idle => if sample.signal {
            DetectorState::MaybePending(sample.now)
        } else {
            DetectorState::Idle
        },
        DetectorState::MaybePending(since) => if !sample.signal {
            DetectorState::Idle
        } else if elapsed(since, sample.now) >= grace {
            DetectorState::TouchPending
        } else {
            DetectorState::MaybePending(since)
        },
        DetectorState::TouchPending => if sample.signal {
            DetectorState::TouchPending
        } else {
            DetectorState::Idle
        },
    }
}

/// The event, if any, that polling `sample` in `state` emits.
pub open spec fn emitted(grace: u64, state: DetectorState, sample: Sample) -> Option<
    DetectorEvent,
> {
    match state {
        DetectorState::Idle => None,
        DetectorState::MaybePending(since) => if sample.signal && elapsed(since, sample.now)
            >= grace {
            Some(DetectorEvent::TouchStarted)
        } else {
            None
        },
        DetectorState::TouchPending => if sample.signal {
            None
        } else {
            Some(DetectorEvent::TouchCompleted)
        },
    }
}

/// The event that closes a run which stops in `state`.
pub open spec fn closing_event(state: DetectorState) -> Option<DetectorEvent> {
    if state == DetectorState::TouchPending {
        Some(DetectorEvent::TouchCompleted)
    } else {
        None
    }
}

/// The state after polling `samples`, one after the other, from `state`.
pub open spec fn state_after(
    grace: u64,
    state: DetectorState,
    samples: Seq<Sample>,
) -> DetectorState
    decreases samples.len(),
{
    if samples.len() == 0 {
        state
    } else {
        next_state(grace, state_after(grace, state, samples.drop_last()), samples.last())
    }
}

/// The event, if any, that the poll of `samples[k]` emits, when polling
/// starts in `state`.
pub open spec fn emission_at(
    grace: u64,
    state: DetectorState,
    samples: Seq<Sample>,
    k: int,
) -> Option<DetectorEvent> {
    emitted(grace, state_after(grace, state, samples.take(k)), samples[k])
}

/// `events` and after them `event`, if there is one.
pub open spec fn with_event(events: Seq<DetectorEvent>, event: Option<DetectorEvent>) -> Seq<
    DetectorEvent,
> {
    match event {
        Some(e) => events.push(e),
        None => events,
    }
}

/// The events that polling `samples` from `state` emits, in order.
pub open spec fn events_of(grace: u64, state: DetectorState, samples: Seq<Sample>) -> Seq<
    DetectorEvent,
>
    decreases samples.len(),
{
    if samples.len() == 0 {
        Seq::empty()
    } else {
        with_event(
            events_of(grace, state, samples.drop_last()),
            emitted(grace, state_after(grace, state, samples.drop_last()), samples.last()),
        )
    }
}

/// The events of a whole run: `samples` are polled from `Idle`, then
/// shutdown is observed.
pub open spec fn run_events(grace: u64, samples: Seq<Sample>) -> Seq<DetectorEvent> {
    with_event(
        events_of(grace, DetectorState::Idle, samples),
        closing_event(state_after(grace, DetectorState::Idle, samples)),
    )
}

/// Turns the polled signal into touch events.
pub struct Detector {
    poll_interval: u64,
    grace_period: u64,
    shutdown: Arc<AtomicBool>,
}

impl Detector {
    #[verifier::type_invariant]
    spec fn timing_is_fixed(&self) -> bool {
        self.poll_interval == POLL_INTERVAL_NANOS && self.grace_period == GRACE_PERIOD_NANOS
    }

    /// The flag that ends the run once it is set.
    pub closed spec fn shutdown_flag(&self) -> Arc<AtomicBool> {
        self.shutdown
    }

    /// A detector that polls every 300 ms, with a grace period of 500 ms,
    /// until `shutdown` is set.
    pub fn new(shutdown: Arc<AtomicBool>) -> (detector: Detector)
        ensures
            detector.shutdown_flag() == shutdown,
    {
        Detector {
            poll_interval: POLL_INTERVAL_NANOS,
            grace_period: GRACE_PERIOD_NANOS,
            shutdown,
        }
    }

    /// How long the host sleeps between two polls.
    pub fn poll_interval(&self) -> (nanos: u64)
        ensures
            nanos == POLL_INTERVAL_NANOS,
    {
        proof {
            use_type_invariant(self);
        }
        self.poll_interval
    }

    /// How long the signal must hold before a touch is announced.
    pub fn grace_period(&self) -> (nanos: u64)
        ensures
            nanos == GRACE_PERIOD_NANOS,
    {
        proof {
            use_type_invariant(self);
        }
        self.grace_period
    }

    /// Whether shutdown has been requested. The flag is shared with whoever
    /// sets it, so nothing is known of the answer.
    pub fn shutdown_requested(&self) -> bool {
        self.shutdown.load(Ordering::Relaxed)
    }

    /// One poll tick: compares the sampled signal with `state`.
    pub fn step(&self, state: DetectorState, sample: Sample) -> (transition: Transition)
        ensures
            transition.next == next_state(GRACE_PERIOD_NANOS, state, sample),
            transition.event == emitted(GRACE_PERIOD_NANOS, state, sample),
    {
        proof {
            use_type_invariant(self);
        }
        match state {
            DetectorState::Idle => {
                if sample.signal {
                    Transition { next: DetectorState::MaybePending(sample.now), event: None }
                } else {
                    Transition { next: DetectorState::Idle, event: None }
                }
            },
            DetectorState::MaybePending(since) => {
                if !sample.signal {
                    Transition { next: DetectorState::Idle, event: None }
                } else if sample.now.saturating_sub(since) >= self.grace_period {
                    Transition {
                        next: DetectorState::TouchPending,
                        event: Some(DetectorEvent::TouchStarted),
                    }
                } else {
                    Transition { next: DetectorState::MaybePending(since), event: None }
                }
            },
            DetectorState::TouchPending => {
                if sample.signal {
                    Transition { next: DetectorState::TouchPending, event: None }
                } else {
                    Transition {
                        next: DetectorState::Idle,
                        event: Some(DetectorEvent::TouchCompleted),
                    }
                }
            },
        }
    }

    /// Leaving the run in `state`: a pending touch is completed, so that no
    /// prompt outlives the detector.
    pub fn finish(&self, state: DetectorState) -> (event: Option<DetectorEvent>)
        ensures
            event == closing_event(state),
    {
        match state {
            DetectorState::TouchPending => Some(DetectorEvent::TouchCompleted),
            _ => None,
        }
    }

    /// A whole run over recorded samples: polls them one after the other from
    /// `Idle`, then leaves as on shutdown.
    pub fn run(&self, samples: &[Sample]) -> (events: Vec<DetectorEvent>)
        ensures
            events@ == run_events(GRACE_PERIOD_NANOS, samples@),
    {
        let mut events: Vec<DetectorEvent> = Vec::new();
        let mut state = DetectorState::Idle;
        let mut i: usize = 0;
        while i < samples.len()
            invariant
                i <= samples.len(),
                state == state_after(
                    GRACE_PERIOD_NANOS,
                    DetectorState::Idle,
                    samples@.take(i as int),
                ),
                events@ == events_of(
                    GRACE_PERIOD_NANOS,
                    DetectorState::Idle,
                    samples@.take(i as int),
                ),
            decreases samples.len() - i,
        {
            let transition = self.step(state, samples[i]);
            proof {
                assert(samples@.take(i + 1).drop_last() =~= samples@.take(i as int));
            }
            state = transition.next;
            if let Some(event) = transition.event {
                events.push(event);
            }
            i = i + 1;
        }
        proof {
            assert(samples@.take(i as int) =~= samples@);
        }
        if let Some(event) = self.finish(state) {
            events.push(event);
        }
        events
    }
}

/// A run can be taken in stages: polling two series of samples on end is
/// polling the first, and then the second from the state that the first led
/// to. So what holds of a series polled from `Idle` holds wherever the
/// detector is idle again.
pub proof fn law_polling_in_stages(
    grace: u64,
    state: DetectorState,
    first: Seq<Sample>,
    second: Seq<Sample>,
)
    ensures
        state_after(grace, state, first + second) == state_after(
            grace,
            state_after(grace, state, first),
            second,
        ),
        events_of(grace, state, first + second) == events_of(grace, state, first) + events_of(
            grace,
            state_after(grace, state, first),
            second,
        ),
    decreases second.len(),
{
    if second.len() == 0 {
        assert(first + second =~= first);
        assert(events_of(grace, state, first) + Seq::<DetectorEvent>::empty() =~= events_of(
            grace,
            state,
            first,
        ));
    } else {
        law_polling_in_stages(grace, state, first, second.drop_last());
        assert((first + second).drop_last() =~= first + second.drop_last());
        assert((first + second).last() == second.last());
        let midway = state_after(grace, state, first);
        let emission = emitted(
            grace,
            state_after(grace, midway, second.drop_last()),
            second.last(),
        );
        let head = events_of(grace, state, first);
        let tail = events_of(grace, midway, second.drop_last());
        assert(with_event(head + tail, emission) =~= head + with_event(tail, emission));
    }
}

/// Whether `events` are a `TouchStarted`, a `TouchCompleted`, a
/// `TouchStarted` and so on, in turn.
pub open spec fn alternate(events: Seq<DetectorEvent>) -> bool {
    forall|i: int|
        0 <= i < events.len() ==> #[trigger] events[i] == if i % 2 == 0 {
            DetectorEvent::TouchStarted
        } else {
            DetectorEvent::TouchCompleted
        }
}

/// Touches are announced and completed in turn: whatever the signal does,
/// the events of a poll series begin with a `TouchStarted` and alternate, and
/// a touch is pending exactly when the last event was a `TouchStarted`.
pub proof fn law_events_alternate(grace: u64, samples: Seq<Sample>)
    ensures
        alternate(events_of(grace, DetectorState::Idle, samples)),
        state_after(grace, DetectorState::Idle, samples) == DetectorState::TouchPending
            <==> events_of(grace, DetectorState::Idle, samples).len() % 2 == 1,
    decreases samples.len(),
{
    if samples.len() > 0 {
        law_events_alternate(grace, samples.drop_last());
    }
}

/// Every touch that a run announces it also completes: the events of a whole
/// run alternate and come in pairs, so that the last of them, if there is
/// any, is a `TouchCompleted`.
pub proof fn law_run_completes_every_touch(grace: u64, samples: Seq<Sample>)
    ensures
        alternate(run_events(grace, samples)),
        run_events(grace, samples).len() % 2 == 0,
{
    law_events_alternate(grace, samples);
}

/// Whether the signal is set in each of `samples` from the `i`-th through
/// the `j`-th.
pub open spec fn holds_throughout(samples: Seq<Sample>, i: int, j: int) -> bool {
    forall|k: int| i <= k <= j ==> (#[trigger] samples[k]).signal
}

/// Whether every stretch of `samples` throughout which the signal is set
/// lasts less than `grace`.
pub open spec fn never_lasts(grace: u64, samples: Seq<Sample>) -> bool {
    forall|i: int, j: int|
        0 <= i <= j < samples.len() && #[trigger] holds_throughout(samples, i, j)
            ==> samples[j].now - samples[i].now < grace
}

/// Whether the signal is set in each of `samples`.
pub open spec fn all_set(samples: Seq<Sample>) -> bool {
    forall|k: int| 0 <= k < samples.len() ==> (#[trigger] samples[k]).signal
}

/// After `n` samples none of whose stretches lasts, nothing was emitted and
/// the detector is idle or still waits for the stretch that began at `start`.
proof fn lemma_short_prefix(grace: u64, samples: Seq<Sample>, n: int) -> (start: int)
    requires
        never_lasts(grace, samples),
        0 <= n <= samples.len(),
    ensures
        events_of(grace, DetectorState::Idle, samples.take(n)) == Seq::<DetectorEvent>::empty(),
        match state_after(grace, DetectorState::Idle, samples.take(n)) {
            DetectorState::Idle => true,
            DetectorState::MaybePending(since) => 0 <= start < n && holds_throughout(
                samples,
                start,
                n - 1,
            ) && since == samples[start].now,
            DetectorState::TouchPending => false,
        },
    decreases n,
{
    if n == 0 {
        0
    } else {
        let earlier = lemma_short_prefix(grace, samples, n - 1);
        let prefix = samples.take(n);
        assert(prefix.drop_last() =~= samples.take(n - 1));
        assert(prefix.last() == samples[n - 1]);
        match state_after(grace, DetectorState::Idle, samples.take(n - 1)) {
            DetectorState::Idle => {
                assert(samples[n - 1].signal ==> holds_throughout(samples, n - 1, n - 1));
                n - 1
            },
            DetectorState::MaybePending(since) => {
                if samples[n - 1].signal {
                    assert(holds_throughout(samples, earlier, n - 1));
                    assert(holds_throughout(samples, earlier, earlier));
                }
                earlier
            },
            DetectorState::TouchPending => 0,
        }
    }
}

/// A signal that never holds for as long as the grace period is passed over
/// in silence: no poll emits an event, and none is due on shutdown.
pub proof fn law_short_signal_is_silent(grace: u64, samples: Seq<Sample>)
    requires
        never_lasts(grace, samples),
    ensures
        events_of(grace, DetectorState::Idle, samples) == Seq::<DetectorEvent>::empty(),
        run_events(grace, samples) == Seq::<DetectorEvent>::empty(),
        !run_events(grace, samples).contains(DetectorEvent::TouchStarted),
        forall|k: int|
            0 <= k < samples.len() ==> #[trigger] emission_at(
                grace,
                DetectorState::Idle,
                samples,
                k,
            ) is None,
{
    let start = lemma_short_prefix(grace, samples, samples.len() as int);
    assert(samples.take(samples.len() as int) =~= samples);
    assert forall|k: int| 0 <= k < samples.len() implies #[trigger] emission_at(
        grace,
        DetectorState::Idle,
        samples,
        k,
    ) is None by {
        let upto = lemma_short_prefix(grace, samples, k + 1);
        let prefix = samples.take(k + 1);
        assert(prefix.drop_last() =~= samples.take(k));
        assert(prefix.last() == samples[k]);
        let earlier = events_of(grace, DetectorState::Idle, samples.take(k));
        let emission = emission_at(grace, DetectorState::Idle, samples, k);
        assert(events_of(grace, DetectorState::Idle, prefix) == with_event(earlier, emission));
        if emission is Some {
            assert(with_event(earlier, emission).len() == earlier.len() + 1);
        }
    }
}

/// While the signal stays set from the first sample on, the detector waits
/// until the grace period has passed and then announces the touch, once.
proof fn lemma_held_prefix(grace: u64, held: Seq<Sample>, n: int)
    requires
        grace > 0,
        all_set(held),
        1 <= n <= held.len(),
    ensures
        ({
            let state = state_after(grace, DetectorState::Idle, held.take(n));
            let events = events_of(grace, DetectorState::Idle, held.take(n));
            ||| {
                &&& state == DetectorState::MaybePending(held[0].now)
                &&& events == Seq::<DetectorEvent>::empty()
                &&& forall|k: int| 0 <= k < n ==> (#[trigger] held[k]).now - held[0].now < grace
            }
            ||| {
                &&& state == DetectorState::TouchPending
                &&& events == seq![DetectorEvent::TouchStarted]
            }
        }),
        forall|k: int|
            0 <= k < n ==> {
                let emission = #[trigger] emission_at(grace, DetectorState::Idle, held, k);
                emission is None || (emission == Some(DetectorEvent::TouchStarted) && held[k].now
                    - held[0].now >= grace)
            },
    decreases n,
{
    let prefix = held.take(n);
    assert(prefix.drop_last() =~= held.take(n - 1));
    assert(prefix.last() == held[n - 1]);
    assert(held[n - 1].signal);
    if n == 1 {
        let nothing = held.take(0);
        assert(nothing.len() == 0);
        assert(state_after(grace, DetectorState::Idle, nothing) == DetectorState::Idle);
        assert(events_of(grace, DetectorState::Idle, nothing) == Seq::<DetectorEvent>::empty());
        assert(events_of(grace, DetectorState::Idle, prefix) =~= Seq::<DetectorEvent>::empty());
    } else {
        lemma_held_prefix(grace, held, n - 1);
        let before = events_of(grace, DetectorState::Idle, held.take(n - 1));
        let earlier = state_after(grace, DetectorState::Idle, held.take(n - 1));
        if earlier == DetectorState::TouchPending {
            assert(events_of(grace, DetectorState::Idle, prefix) =~= before);
        } else if elapsed(held[0].now, held[n - 1].now) >= grace {
            assert(events_of(grace, DetectorState::Idle, prefix) =~= seq![
                DetectorEvent::TouchStarted,
            ]);
        } else {
            assert(events_of(grace, DetectorState::Idle, prefix) =~= before);
        }
    }
}

/// A signal that holds for the grace period or longer and then goes away is
/// answered by two events: `TouchStarted`, emitted by a poll at which the
/// grace period has passed, and `TouchCompleted`, emitted by the poll that
/// first sees the signal gone.
pub proof fn law_held_signal_starts_and_completes_once(
    grace: u64,
    held: Seq<Sample>,
    release: Sample,
)
    requires
        grace > 0,
        held.len() > 0,
        all_set(held),
        held.last().now - held[0].now >= grace,
        !release.signal,
    ensures
        events_of(grace, DetectorState::Idle, held.push(release)) == seq![
            DetectorEvent::TouchStarted,
            DetectorEvent::TouchCompleted,
        ],
        run_events(grace, held.push(release)) == seq![
            DetectorEvent::TouchStarted,
            DetectorEvent::TouchCompleted,
        ],
        forall|k: int|
            0 <= k < held.len() && #[trigger] emission_at(
                grace,
                DetectorState::Idle,
                held.push(release),
                k,
            ) is Some ==> held[k].now - held[0].now >= grace,
        emission_at(grace, DetectorState::Idle, held.push(release), held.len() as int) == Some(
            DetectorEvent::TouchCompleted,
        ),
{
    let n = held.len() as int;
    let samples = held.push(release);
    lemma_held_prefix(grace, held, n);
    assert(held.take(n) =~= held);
    assert(samples.drop_last() =~= held);
    assert(samples.take(n) =~= held);
    assert(events_of(grace, DetectorState::Idle, samples) =~= seq![
        DetectorEvent::TouchStarted,
        DetectorEvent::TouchCompleted,
    ]);
    assert forall|k: int|
        0 <= k < held.len() && #[trigger] emission_at(
            grace,
            DetectorState::Idle,
            samples,
            k,
        ) is Some implies held[k].now - held[0].now >= grace by {
        assert(samples.take(k) =~= held.take(k));
        assert(emission_at(grace, DetectorState::Idle, held, k) is Some);
    }
}

/// Shutdown while a touch is pending completes it: when the signal has held
/// for the grace period or longer and is still set at the last poll, the run
/// ends with one `TouchCompleted` all the same.
pub proof fn law_shutdown_completes_pending_touch(grace: u64, held: Seq<Sample>)
    requires
        grace > 0,
        held.len() > 0,
        all_set(held),
        held.last().now - held[0].now >= grace,
    ensures
        state_after(grace, DetectorState::Idle, held) == DetectorState::TouchPending,
        events_of(grace, DetectorState::Idle, held) == seq![DetectorEvent::TouchStarted],
        run_events(grace, held) == seq![
            DetectorEvent::TouchStarted,
            DetectorEvent::TouchCompleted,
        ],
{
    lemma_held_prefix(grace, held, held.len() as int);
    assert(held.take(held.len() as int) =~= held);
    assert(run_events(grace, held) =~= seq![
        DetectorEvent::TouchStarted,
        DetectorEvent::TouchCompleted,
    ]);
}

} // verus!
