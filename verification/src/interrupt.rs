//! Detection of repeated interrupts.
//!
//! The tracker keeps the times of the latest interrupts, newest first and
//! never more than [`INTERRUPT_LIMIT`] of them. A further interrupt that
//! arrives while the tracker is full, within [`INTERRUPT_WINDOW`] of the
//! oldest time it keeps, is the hard-exit condition.
//!
//! Times are nanoseconds on a clock that starts when the tracker is made.

use std::collections::VecDeque;
use std::time::Instant;
use vstd::prelude::*;

verus! {

/// How many interrupt times the tracker keeps.
pub const INTERRUPT_LIMIT: usize = 3;

/// Length of the window, in nanoseconds: three seconds.
pub const INTERRUPT_WINDOW: u128 = 3_000_000_000;

/// `std::time::Instant`, carried through as an opaque value.
#[verifier::external_type_specification]
#[verifier::external_body]
pub struct ExInstant(Instant);

/// Calls `Instant::now`. Trusted; nothing is claimed of the instant returned.
#[verifier::external_body]
fn clock_start() -> Instant {
    Instant::now()
}

/// Calls `Instant::elapsed` and gives the duration in nanoseconds. Trusted;
/// nothing is claimed of the number returned.
#[verifier::external_body]
fn clock_read(origin: &Instant) -> u128 {
    origin.elapsed().as_nanos()
}

/// Whether `now` lies within the window that opens at `oldest`. A reading
/// that lies before `oldest` counts as no time passed.
pub open spec fn within_window(oldest: u128, now: u128) -> bool {
    now - oldest <= INTERRUPT_WINDOW
}

/// Whether an interrupt at `now` is the hard-exit condition for a tracker
/// that keeps `stamps`, newest first.
pub open spec fn fires(stamps: Seq<u128>, now: u128) -> bool {
    stamps.len() == INTERRUPT_LIMIT && within_window(stamps.last(), now)
}

/// The times kept after an interrupt at `now`. While there is room the new
/// time is added. In a full tracker it takes the place of the oldest time if
/// that one lies within the window; otherwise the tracker starts over with
/// the new time alone.
pub open spec fn recorded(stamps: Seq<u128>, now: u128) -> Seq<u128> {
    if stamps.len() < INTERRUPT_LIMIT {
        seq![now] + stamps
    } else if within_window(stamps.last(), now) {
        seq![now] + stamps.drop_last()
    } else {
        seq![now]
    }
}

/// Rolling record of the latest interrupts.
pub struct InterruptHandler {
    origin: Instant,
    stamps: VecDeque<u128>,
}

impl View for InterruptHandler {
    type V = Seq<u128>;

    /// The times kept, newest first.
    closed spec fn view(&self) -> Seq<u128> {
        self.stamps@
    }
}

impl InterruptHandler {
    /// The tracker keeps at most [`INTERRUPT_LIMIT`] times.
    pub open spec fn wf(&self) -> bool {
        self@.len() <= INTERRUPT_LIMIT
    }

    /// A tracker that has seen no interrupt. `cap` says for how many times to
    /// make room at once; the tracker never keeps more than
    /// [`INTERRUPT_LIMIT`].
    pub fn new(cap: usize) -> (tracker: Self)
        ensures
            tracker.wf(),
            tracker@ == Seq::<u128>::empty(),
    {
        let room: usize = if cap < INTERRUPT_LIMIT {
            cap
        } else {
            INTERRUPT_LIMIT
        };
        InterruptHandler { origin: clock_start(), stamps: VecDeque::with_capacity(room) }
    }

    /// Records an interrupt at time `now` and tells whether it is the
    /// hard-exit condition.
    pub fn interrupted_at(&mut self, now: u128) -> (fired: bool)
        requires
            old(self).wf(),
        ensures
            final(self).wf(),
            fired == fires(old(self)@, now),
            final(self)@ == recorded(old(self)@, now),
    {
        if self.stamps.len() == INTERRUPT_LIMIT {
            match self.stamps.pop_back() {
                Some(oldest) => {
                    let fired = now <= oldest || now - oldest <= INTERRUPT_WINDOW;
                    if !fired {
                        self.stamps.clear();
                    }
                    self.stamps.push_front(now);
                    fired
                },
                None => false,
            }
        } else {
            self.stamps.push_front(now);
            false
        }
    }

    /// Reads the tracker's clock: the nanoseconds since the tracker was made.
    pub(crate) fn now(&self) -> u128 {
        clock_read(&self.origin)
    }

    /// Records an interrupt at the present time and tells whether it is the
    /// hard-exit condition. The time is read from the tracker's clock, so
    /// the contract holds for some reading of it.
    pub fn interrupted(&mut self) -> (fired: bool)
        requires
            old(self).wf(),
        ensures
            final(self).wf(),
            exists|now: u128|
                fired == fires(old(self)@, now) && final(self)@ == #[trigger] recorded(
                    old(self)@,
                    now,
                ),
            fired ==> old(self)@.len() == INTERRUPT_LIMIT,
    {
        let now: u128 = self.now();
        self.interrupted_at(now)
    }
}

/// A tracker that has seen no interrupt does not fire on the first three, and
/// fires on the fourth exactly if that one comes within the window of the
/// first.
pub proof fn lemma_fresh_tracker_fires_on_fourth(first: u128, second: u128, third: u128, fourth: u128)
    ensures
        !fires(Seq::empty(), first),
        !fires(recorded(Seq::empty(), first), second),
        !fires(recorded(recorded(Seq::empty(), first), second), third),
        fires(recorded(recorded(recorded(Seq::empty(), first), second), third), fourth)
            <==> within_window(first, fourth),
{
}

/// The third of three interrupts fires exactly if the tracker held at least
/// one time before them and each time that it held lies within the window of
/// the interrupt that comes three after it.
pub proof fn lemma_third_interrupt_fires_iff(
    stamps: Seq<u128>,
    first: u128,
    second: u128,
    third: u128,
)
    requires
        stamps.len() <= INTERRUPT_LIMIT,
    ensures
        fires(recorded(recorded(stamps, first), second), third) <==> {
            &&& stamps.len() >= 1
            &&& within_window(stamps[0], third)
            &&& stamps.len() >= 2 ==> within_window(stamps[1], second)
            &&& stamps.len() >= 3 ==> within_window(stamps[2], first)
        },
{
}

/// Three interrupts in the order of time, the third more than the window
/// after the first, never end in the hard-exit condition on the third,
/// whatever the tracker held before, as long as that is not later than the
/// first.
pub proof fn lemma_spread_interrupts_never_fire(
    stamps: Seq<u128>,
    first: u128,
    second: u128,
    third: u128,
)
    requires
        stamps.len() <= INTERRUPT_LIMIT,
        forall|i: int| 0 <= i < stamps.len() ==> stamps[i] <= first,
        first <= second <= third,
        third - first > INTERRUPT_WINDOW,
    ensures
        !fires(recorded(recorded(stamps, first), second), third),
{
    lemma_third_interrupt_fires_iff(stamps, first, second, third);
}

} // verus!
