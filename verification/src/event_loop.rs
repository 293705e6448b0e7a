//! The event loop driver: when a timer fires, what happens to it afterwards,
//! and in which order microtasks and timers get their turn.
//!
//! The driver decides; the host acts. The host asks for the next action,
//! performs it with no borrow of the timer collection held (a callback may
//! create or remove timers, its own included), and asks again.

use crate::timers::Timers;
use crate::timers::TimersModel;
use vstd::prelude::*;

verus! {

/// What the timer collection asks of the loop at some instant.
#[derive(Debug, Clone, Copy, PartialEq, Eq, Structural)]
pub enum TimerPoll {
    /// No timer is live.
    Idle,
    /// The timer `id` is due: invoke its callback, then settle it.
    Fire { id: u32 },
    /// The first timer is due `delay` from now.
    Sleep { delay: u64 },
}

/// Where the driver stands between two actions.
#[derive(Debug, Clone, Copy, PartialEq, Eq, Structural)]
pub enum LoopPhase {
    /// Microtasks are to be drained next.
    Drain,
    /// Microtasks were drained; the timers are to be polled next.
    Poll,
    /// The callback of timer `id` was handed to the host and has returned.
    Fired { id: u32 },
    /// The loop is quiescent.
    Done,
}

/// What the host does next.
#[derive(Debug, Clone, Copy, PartialEq, Eq, Structural)]
pub enum LoopAction {
    /// Run the engine's microtask queue to completion.
    DrainMicrotasks,
    /// Invoke the callback of timer `id` with no arguments.
    Fire { id: u32 },
    /// Suspend for `delay`, holding no lock on the engine.
    Sleep { delay: u64 },
    /// Nothing is left to do.
    Finish,
}

/// The timer that is due first, if any timer is live.
pub open spec fn first_due<C>(m: TimersModel<C>) -> Option<u32> {
    if m.live == Map::<u32, crate::timers::Timer<C>>::empty() {
        None
    } else {
        Some(choose|id: u32| m.is_next_due(id))
    }
}

/// What the timers ask of the loop at instant `now`: a timer fires only once
/// its due instant has been reached.
pub open spec fn poll<C>(m: TimersModel<C>, now: u64) -> TimerPoll {
    match first_due(m) {
        None => TimerPoll::Idle,
        Some(id) => if m.live[id].due <= now {
            TimerPoll::Fire { id }
        } else {
            TimerPoll::Sleep { delay: (m.live[id].due - now) as u64 }
        },
    }
}

/// The collection after the callback of timer `id` has returned: a repeating
/// timer moves on by exactly its interval, a one-shot timer leaves, and a timer
/// that its callback removed stays removed.
pub open spec fn settled<C>(m: TimersModel<C>, id: u32) -> TimersModel<C> {
    if m.live.contains_key(id) {
        match m.live[id].interval {
            Some(period) => m.reschedule(id, (m.live[id].due + period) as u64),
            None => m.remove(id),
        }
    } else {
        m
    }
}

/// Settling timer `id` does not move its due instant past the end of time.
pub open spec fn can_settle<C>(m: TimersModel<C>, id: u32) -> bool {
    m.live.contains_key(id) ==> match m.live[id].interval {
        Some(period) => m.live[id].due + period <= u64::MAX,
        None => true,
    }
}

/// One turn of the driver: the phase and the timers it leaves, and the action
/// it asks for.
pub open spec fn step<C>(phase: LoopPhase, m: TimersModel<C>, now: u64) -> (
    LoopPhase,
    TimersModel<C>,
    LoopAction,
) {
    match phase {
        LoopPhase::Drain => (LoopPhase::Poll, m, LoopAction::DrainMicrotasks),
        LoopPhase::Poll => match poll(m, now) {
            TimerPoll::Idle => (LoopPhase::Done, m, LoopAction::Finish),
            TimerPoll::Fire { id } => (LoopPhase::Fired { id }, m, LoopAction::Fire { id }),
            TimerPoll::Sleep { delay } => (LoopPhase::Drain, m, LoopAction::Sleep { delay }),
        },
        LoopPhase::Fired { id } => (LoopPhase::Poll, settled(m, id), LoopAction::DrainMicrotasks),
        LoopPhase::Done => (LoopPhase::Done, m, LoopAction::Finish),
    }
}

/// At most one timer is due first.
pub proof fn lemma_next_due_unique<C>(m: TimersModel<C>, a: u32, b: u32)
    requires
        m.is_next_due(a),
        m.is_next_due(b),
    ensures
        a == b,
{
}

/// The timer that is due first is the one that `first_due` names.
pub proof fn lemma_first_due<C>(m: TimersModel<C>, id: u32)
    requires
        m.is_next_due(id),
    ensures
        first_due(m) == Some(id),
{
    assert(m.live.contains_key(id));
    assert(m.live != Map::<u32, crate::timers::Timer<C>>::empty());
    let chosen = choose|x: u32| m.is_next_due(x);
    lemma_next_due_unique(m, id, chosen);
}

/// Asks the timers what the loop is to do at instant `now`.
pub fn poll_timers<C>(timers: &Timers<C>, now: u64) -> (out: TimerPoll)
    requires
        timers.wf(),
    ensures
        out == poll(timers@, now),
{
    match timers.next_due() {
        None => TimerPoll::Idle,
        Some((id, due)) => {
            proof {
                lemma_first_due(timers@, id);
            }
            if due <= now {
                TimerPoll::Fire { id }
            } else {
                TimerPoll::Sleep { delay: due - now }
            }
        },
    }
}

/// Whether `settle` may be called for timer `id`.
pub fn settles<C>(timers: &Timers<C>, id: u32) -> (ok: bool)
    requires
        timers.wf(),
    ensures
        ok == can_settle(timers@, id),
{
    match timers.get(id) {
        Some(timer) => match timer.interval {
            Some(period) => timer.due <= u64::MAX - period,
            None => true,
        },
        None => true,
    }
}

/// Reconciles the collection after the callback of timer `id` has returned.
/// The timer is read again by id: the callback may have removed it.
pub fn settle<C>(timers: &mut Timers<C>, id: u32)
    requires
        old(timers).wf(),
        can_settle(old(timers)@, id),
    ensures
        final(timers).wf(),
        final(timers)@ == settled(old(timers)@, id),
{
    let plan: Option<Option<u64>> = match timers.get(id) {
        Some(timer) => match timer.interval {
            Some(period) => Some(Some(timer.due + period)),
            None => Some(None),
        },
        None => None,
    };
    match plan {
        Some(Some(due)) => timers.reschedule(id, due),
        Some(None) => timers.remove(id),
        None => {},
    }
}

/// The driver of one context's event loop.
pub struct EventLoop {
    phase: LoopPhase,
}

impl View for EventLoop {
    type V = LoopPhase;

    closed spec fn view(&self) -> LoopPhase {
        self.phase
    }
}

impl EventLoop {
    /// A driver about to drain microtasks for the first time.
    pub fn new() -> (driver: EventLoop)
        ensures
            driver@ == LoopPhase::Drain,
    {
        EventLoop { phase: LoopPhase::Drain }
    }

    /// The phase in which the driver stands.
    pub fn phase(&self) -> (phase: LoopPhase)
        ensures
            phase == self@,
    {
        self.phase
    }

    /// Whether `next` may be called: the timer whose callback has just
    /// returned, if any, can be settled.
    pub open spec fn can_advance<C>(self, m: TimersModel<C>) -> bool {
        match self@ {
            LoopPhase::Fired { id } => can_settle(m, id),
            _ => true,
        }
    }

    /// Whether `next` may be called.
    pub fn advances<C>(&self, timers: &Timers<C>) -> (ok: bool)
        requires
            timers.wf(),
        ensures
            ok == self.can_advance(timers@),
    {
        match self.phase {
            LoopPhase::Fired { id } => settles(timers, id),
            _ => true,
        }
    }

    /// Takes one turn at instant `now` and says what the host does next.
    ///
    /// Microtasks are drained before every poll of the timers. A due timer is
    /// fired, settled when its callback has returned, and followed by another
    /// drain. With a timer due later the host sleeps for exactly the remaining
    /// delay; with no timer the loop is finished.
    pub fn next<C>(&mut self, timers: &mut Timers<C>, now: u64) -> (action: LoopAction)
        requires
            old(timers).wf(),
            old(self).can_advance(old(timers)@),
        ensures
            final(timers).wf(),
            (final(self)@, final(timers)@, action) == step(old(self)@, old(timers)@, now),
    {
        match self.phase {
            LoopPhase::Drain => {
                self.phase = LoopPhase::Poll;
                LoopAction::DrainMicrotasks
            },
            LoopPhase::Poll => match poll_timers(timers, now) {
                TimerPoll::Idle => {
                    self.phase = LoopPhase::Done;
                    LoopAction::Finish
                },
                TimerPoll::Fire { id } => {
                    self.phase = LoopPhase::Fired { id };
                    LoopAction::Fire { id }
                },
                TimerPoll::Sleep { delay } => {
                    self.phase = LoopPhase::Drain;
                    LoopAction::Sleep { delay }
                },
            },
            LoopPhase::Fired { id } => {
                settle(timers, id);
                self.phase = LoopPhase::Poll;
                LoopAction::DrainMicrotasks
            },
            LoopPhase::Done => LoopAction::Finish,
        }
    }
}

/// The id was handed out and its timer is gone.
pub open spec fn retired<C>(m: TimersModel<C>, id: u32) -> bool {
    (id as nat) < m.next_id && !m.live.contains_key(id)
}

/// The number of times that a timer with period `period`, due at `due`, has
/// fired once a loop driven up to the instant `now` finds it no longer due.
pub open spec fn firings_by(due: int, period: int, now: int) -> nat
    decreases now - due + period,
{
    if period > 0 && due <= now {
        1 + firings_by(due + period, period, now)
    } else {
        0
    }
}

/// Creating a timer keeps the collection sound, and the new timer is live under
/// a fresh id.
pub proof fn lemma_create_keeps_inv<C>(
    m: TimersModel<C>,
    callback: C,
    delay: u64,
    repeat: bool,
    now: u64,
)
    requires
        m.inv(),
        m.next_id < u32::MAX,
    ensures
        m.create(callback, delay, repeat, now).inv(),
        !m.live.contains_key(m.next_id as u32),
        m.create(callback, delay, repeat, now).live.contains_key(m.next_id as u32),
{
    let id = m.next_id as u32;
    if m.live.contains_key(id) {
        assert((id as nat) < m.next_id);
    }
}

/// Removing, rescheduling and settling keep the collection sound.
pub proof fn lemma_updates_keep_inv<C>(m: TimersModel<C>, id: u32, due: u64)
    requires
        m.inv(),
    ensures
        m.remove(id).inv(),
        m.reschedule(id, due).inv(),
        settled(m, id).inv(),
{
}

/// A one-shot timer fires no earlier than `delay` after its creation, and is
/// absent from the collection as soon as it has fired.
pub proof fn lemma_one_shot_fires_once<C>(
    m: TimersModel<C>,
    callback: C,
    delay: u64,
    now: u64,
    at: u64,
)
    requires
        m.inv(),
        m.next_id < u32::MAX,
        now + delay <= u64::MAX,
    ensures
        ({
            let id = m.next_id as u32;
            let armed = m.create(callback, delay, false, now);
            &&& armed.live.contains_key(id)
            &&& armed.live[id].due == now + delay
            &&& poll(armed, at) == (TimerPoll::Fire { id }) ==> now + delay <= at
            &&& step(LoopPhase::Poll, armed, at).2 == (LoopAction::Fire { id }) ==> now + delay
                <= at
            &&& retired(settled(armed, id), id)
        }),
{
}

/// An id that has been retired is never live again, whatever is done to the
/// collection, and the loop never fires it.
pub proof fn lemma_retired_stays_retired<C>(
    m: TimersModel<C>,
    id: u32,
    callback: C,
    delay: u64,
    repeat: bool,
    now: u64,
    other: u32,
    due: u64,
    phase: LoopPhase,
)
    requires
        m.inv(),
        m.next_id < u32::MAX,
        retired(m, id),
    ensures
        retired(m.create(callback, delay, repeat, now), id),
        retired(m.remove(other), id),
        retired(m.reschedule(other, due), id),
        retired(settled(m, other), id),
        poll(m, now) != (TimerPoll::Fire { id }),
        phase != (LoopPhase::Fired { id }) ==> retired(step(phase, m, now).1, id),
        step(phase, m, now).2 != (LoopAction::Fire { id }),
{
    lemma_fire_is_live(m, now);
}

/// The loop fires only a live timer that is due first and whose due instant
/// has been reached.
pub proof fn lemma_fire_is_live<C>(m: TimersModel<C>, now: u64)
    requires
        m.inv(),
    ensures
        match poll(m, now) {
            TimerPoll::Idle => m.live == Map::<u32, crate::timers::Timer<C>>::empty(),
            TimerPoll::Fire { id } => m.is_next_due(id) && m.live[id].due <= now,
            TimerPoll::Sleep { delay } => exists|id: u32|
                m.is_next_due(id) && m.live[id].due == now + delay && delay > 0,
        },
{
    if m.live != Map::<u32, crate::timers::Timer<C>>::empty() {
        lemma_some_timer_is_next(m);
    }
}

/// A sound collection that is not empty has a timer that is due first.
pub proof fn lemma_some_timer_is_next<C>(m: TimersModel<C>)
    requires
        m.live != Map::<u32, crate::timers::Timer<C>>::empty(),
        m.live.dom().finite(),
    ensures
        exists|id: u32| m.is_next_due(id),
    decreases m.live.dom().len(),
{
    assert(m.live.dom() !~= Set::<u32>::empty()) by {
        if m.live.dom() =~= Set::<u32>::empty() {
            assert(m.live =~= Map::<u32, crate::timers::Timer<C>>::empty());
        }
    }
    let some = choose|id: u32| m.live.dom().contains(id);
    assert(m.live.contains_key(some));
    let rest = m.remove(some);
    if rest.live =~= Map::<u32, crate::timers::Timer<C>>::empty() {
        assert forall|other: u32| #[trigger] m.live.contains_key(other) implies other == some by {
            if other != some {
                assert(rest.live.contains_key(other));
            }
        }
        assert(m.is_next_due(some));
    } else {
        lemma_some_timer_is_next(rest);
        let best = choose|id: u32| rest.is_next_due(id);
        assert(rest.live.contains_key(best));
        let wins = m.live[some].due < m.live[best].due || (m.live[some].due == m.live[best].due
            && some <= best);
        let pick = if wins {
            some
        } else {
            best
        };
        assert forall|other: u32| #[trigger] m.live.contains_key(other) implies {
            ||| m.live[pick].due < m.live[other].due
            ||| m.live[pick].due == m.live[other].due && pick <= other
        } by {
            if other != some {
                assert(rest.live.contains_key(other));
            }
        }
        assert(m.is_next_due(pick));
    }
}

/// A repeating timer stays live when it has fired, and its next due instant
/// lies exactly one interval after the previous one.
pub proof fn lemma_repeating_advances_exactly<C>(m: TimersModel<C>, id: u32)
    requires
        m.inv(),
        m.live.contains_key(id),
        m.live[id].interval is Some,
        can_settle(m, id),
    ensures
        settled(m, id).live.contains_key(id),
        settled(m, id).live[id].due == m.live[id].due + m.live[id].interval->0,
        settled(m, id).live[id].interval == m.live[id].interval,
        settled(m, id).live[id].callback == m.live[id].callback,
        settled(m, id).live.remove(id) == m.live.remove(id),
{
    assert(settled(m, id).live.remove(id) =~= m.live.remove(id));
}

/// A timer that repeats every `period`, created at `start`, has fired
/// `span / period` times, rounded down, once a loop driven up to `start + span`
/// finds it no longer due.
pub proof fn lemma_repeating_fires_often(start: int, period: int, span: int)
    requires
        period > 0,
        span >= 0,
    ensures
        firings_by(start + period, period, start + span) == span / period,
    decreases span,
{
    if span < period {
        assert(span / period == 0) by (nonlinear_arith)
            requires
                0 <= span < period,
        ;
    } else {
        lemma_repeating_fires_often(start + period, period, span - period);
        assert(start + period + (span - period) == start + span);
        assert((span - period) / period == span / period - 1) by (nonlinear_arith)
            requires
                period > 0,
                span >= period,
        ;
    }
}

/// Removing a timer takes it out of the collection for good; removing it again,
/// or removing an id that is not live, changes nothing.
pub proof fn lemma_remove_is_idempotent<C>(m: TimersModel<C>, id: u32, now: u64)
    requires
        m.inv(),
    ensures
        !m.remove(id).live.contains_key(id),
        m.remove(id).remove(id) == m.remove(id),
        !m.live.contains_key(id) ==> m.remove(id) == m,
        poll(m.remove(id), now) != (TimerPoll::Fire { id }),
{
    assert(m.remove(id).live.remove(id) =~= m.remove(id).live);
    if !m.live.contains_key(id) {
        assert(m.live.remove(id) =~= m.live);
    }
    lemma_fire_is_live(m.remove(id), now);
}

/// With no timer live the loop drains the microtasks once and is finished: it
/// neither fires nor sleeps.
pub proof fn lemma_quiescent_without_timers<C>(m: TimersModel<C>, now: u64)
    requires
        m.live == Map::<u32, crate::timers::Timer<C>>::empty(),
    ensures
        step(LoopPhase::Drain, m, now) == (LoopPhase::Poll, m, LoopAction::DrainMicrotasks),
        step(LoopPhase::Poll, m, now) == (LoopPhase::Done, m, LoopAction::Finish),
        step(LoopPhase::Done, m, now) == (LoopPhase::Done, m, LoopAction::Finish),
{
}

} // verus!
