//! The timer collection: one-shot and repeating timers keyed by id.
//!
//! Instants and durations are whole milliseconds on the host's monotonic
//! clock. The collection never reads a clock: every operation that needs the
//! current instant takes it as an argument.

use crate::protocol::ProtocolError;
use vstd::prelude::*;

verus! {

/// One scheduled callback.
pub struct Timer<C> {
    /// The id under which the timer is kept.
    pub id: u32,
    /// The instant from which the timer may fire.
    pub due: u64,
    /// The period of a repeating timer; `None` for a one-shot timer.
    pub interval: Option<u64>,
    /// What to invoke when the timer fires.
    pub callback: C,
}

/// What a timer collection is: the live timers by id, and the id that the next
/// timer will get.
pub struct TimersModel<C> {
    pub live: Map<u32, Timer<C>>,
    pub next_id: nat,
}

impl<C> TimersModel<C> {
    /// Every live timer is kept under its own id, and that id has been handed
    /// out already.
    pub open spec fn inv(self) -> bool {
        &&& self.live.dom().finite()
        &&& forall|id: u32| #[trigger]
            self.live.contains_key(id) ==> self.live[id].id == id && (id as nat) < self.next_id
    }

    /// The collection with no timer, before any id was handed out.
    pub open spec fn empty() -> Self {
        TimersModel { live: Map::empty(), next_id: 0 }
    }

    /// The timer that `create` registers.
    pub open spec fn created(self, callback: C, delay: u64, repeat: bool, now: u64) -> Timer<C> {
        Timer {
            id: self.next_id as u32,
            due: (now + delay) as u64,
            interval: if repeat {
                Some(delay)
            } else {
                None
            },
            callback,
        }
    }

    /// The collection after a timer was registered at instant `now`.
    pub open spec fn create(self, callback: C, delay: u64, repeat: bool, now: u64) -> Self {
        TimersModel {
            live: self.live.insert(
                self.next_id as u32,
                self.created(callback, delay, repeat, now),
            ),
            next_id: self.next_id + 1,
        }
    }

    /// The collection without the timer `id`.
    pub open spec fn remove(self, id: u32) -> Self {
        TimersModel { live: self.live.remove(id), next_id: self.next_id }
    }

    /// The collection with the timer `id`, if it is live, moved to `due`.
    pub open spec fn reschedule(self, id: u32, due: u64) -> Self {
        if self.live.contains_key(id) {
            let t = self.live[id];
            TimersModel {
                live: self.live.insert(
                    id,
                    Timer { id: t.id, due, interval: t.interval, callback: t.callback },
                ),
                next_id: self.next_id,
            }
        } else {
            self
        }
    }

    /// `id` is the live timer that is due first; among timers due at the same
    /// instant, the one with the lowest id.
    pub open spec fn is_next_due(self, id: u32) -> bool {
        &&& self.live.contains_key(id)
        &&& forall|other: u32| #[trigger]
            self.live.contains_key(other) ==> {
                ||| self.live[id].due < self.live[other].due
                ||| self.live[id].due == self.live[other].due && id <= other
            }
    }
}

/// The live timers of a context, with the counter that allocates their ids.
pub struct Timers<C> {
    timers: Vec<Timer<C>>,
    next_id: u32,
}

/// The position of the timer `id` in `s`.
spec fn position_of<C>(s: Seq<Timer<C>>, id: u32) -> int {
    choose|i: int| 0 <= i < s.len() && s[i].id == id
}

/// The timers of `s` by id.
spec fn live_of<C>(s: Seq<Timer<C>>) -> Map<u32, Timer<C>> {
    Map::new(
        |id: u32| exists|i: int| 0 <= i < s.len() && s[i].id == id,
        |id: u32| s[position_of(s, id)],
    )
}

/// The ids of `s` grow strictly from front to back.
spec fn ascending<C>(s: Seq<Timer<C>>) -> bool {
    forall|i: int, j: int| 0 <= i < j < s.len() ==> s[i].id < s[j].id
}

proof fn lemma_live_at<C>(s: Seq<Timer<C>>, i: int)
    requires
        ascending(s),
        0 <= i < s.len(),
    ensures
        live_of(s).contains_key(s[i].id),
        live_of(s)[s[i].id] == s[i],
        position_of(s, s[i].id) == i,
{
    let id = s[i].id;
    let p = position_of(s, id);
    assert(0 <= p < s.len() && s[p].id == id);
    if p < i {
        assert(s[p].id < s[i].id);
    } else if i < p {
        assert(s[i].id < s[p].id);
    }
}

proof fn lemma_live_key<C>(s: Seq<Timer<C>>, id: u32)
    requires
        ascending(s),
        live_of(s).contains_key(id),
    ensures
        0 <= position_of(s, id) < s.len(),
        s[position_of(s, id)].id == id,
        live_of(s)[id] == s[position_of(s, id)],
{
}

proof fn lemma_live_push<C>(s: Seq<Timer<C>>, t: Timer<C>)
    requires
        ascending(s),
        forall|i: int| 0 <= i < s.len() ==> s[i].id < t.id,
    ensures
        ascending(s.push(t)),
        live_of(s.push(t)) == live_of(s).insert(t.id, t),
{
    let s2 = s.push(t);
    assert(ascending(s2));
    assert forall|id: u32| live_of(s2).contains_key(id) <==> #[trigger] live_of(s).insert(
        t.id,
        t,
    ).contains_key(id) by {
        if live_of(s2).contains_key(id) {
            let i = position_of(s2, id);
            if i < s.len() {
                assert(s[i].id == id);
            }
        }
        if live_of(s).contains_key(id) {
            let i = position_of(s, id);
            assert(s2[i].id == id);
        }
        if id == t.id {
            assert(s2[s.len() as int].id == id);
        }
    }
    assert forall|id: u32| #[trigger] live_of(s2).contains_key(id) implies live_of(s2)[id]
        == live_of(s).insert(t.id, t)[id] by {
        let i = position_of(s2, id);
        lemma_live_at(s2, i);
        if i < s.len() {
            assert(s2[i] == s[i]);
            lemma_live_at(s, i);
        }
    }
    assert(live_of(s2) =~= live_of(s).insert(t.id, t));
}

proof fn lemma_live_remove<C>(s: Seq<Timer<C>>, k: int)
    requires
        ascending(s),
        0 <= k < s.len(),
    ensures
        ascending(s.remove(k)),
        live_of(s.remove(k)) == live_of(s).remove(s[k].id),
{
    let s2 = s.remove(k);
    let gone = s[k].id;
    assert forall|i: int, j: int| 0 <= i < j < s2.len() implies s2[i].id < s2[j].id by {
        let si = if i < k {
            i
        } else {
            i + 1
        };
        let sj = if j < k {
            j
        } else {
            j + 1
        };
        assert(s2[i] == s[si]);
        assert(s2[j] == s[sj]);
    }
    assert(ascending(s2));
    assert forall|id: u32| live_of(s2).contains_key(id) <==> #[trigger] live_of(s).remove(
        gone,
    ).contains_key(id) by {
        if live_of(s2).contains_key(id) {
            let i = position_of(s2, id);
            let si = if i < k {
                i
            } else {
                i + 1
            };
            assert(s2[i] == s[si]);
            assert(s[si].id == id);
            if si < k {
                assert(s[si].id < s[k].id);
            } else {
                assert(s[k].id < s[si].id);
            }
        }
        if live_of(s).remove(gone).contains_key(id) {
            let i = position_of(s, id);
            assert(i != k);
            let ti = if i < k {
                i
            } else {
                i - 1
            };
            assert(s2[ti] == s[i]);
        }
    }
    assert forall|id: u32| #[trigger] live_of(s2).contains_key(id) implies live_of(s2)[id]
        == live_of(s).remove(gone)[id] by {
        let i = position_of(s2, id);
        lemma_live_at(s2, i);
        let si = if i < k {
            i
        } else {
            i + 1
        };
        assert(s2[i] == s[si]);
        lemma_live_at(s, si);
    }
    assert(live_of(s2) =~= live_of(s).remove(gone));
}

proof fn lemma_live_update<C>(s: Seq<Timer<C>>, k: int, t: Timer<C>)
    requires
        ascending(s),
        0 <= k < s.len(),
        t.id == s[k].id,
    ensures
        ascending(s.update(k, t)),
        live_of(s.update(k, t)) == live_of(s).insert(t.id, t),
{
    let s2 = s.update(k, t);
    assert forall|i: int, j: int| 0 <= i < j < s2.len() implies s2[i].id < s2[j].id by {
        assert(s2[i].id == s[i].id);
        assert(s2[j].id == s[j].id);
    }
    assert(ascending(s2));
    assert forall|id: u32| live_of(s2).contains_key(id) <==> #[trigger] live_of(s).insert(
        t.id,
        t,
    ).contains_key(id) by {
        if live_of(s2).contains_key(id) {
            let i = position_of(s2, id);
            assert(s[i].id == id);
        }
        if live_of(s).contains_key(id) {
            let i = position_of(s, id);
            assert(s2[i].id == id);
        }
        if id == t.id {
            assert(s2[k].id == id);
            assert(s[k].id == id);
        }
    }
    assert forall|id: u32| #[trigger] live_of(s2).contains_key(id) implies live_of(s2)[id]
        == live_of(s).insert(t.id, t)[id] by {
        let i = position_of(s2, id);
        lemma_live_at(s2, i);
        assert(s[i].id == id);
        lemma_live_at(s, i);
    }
    assert(live_of(s2) =~= live_of(s).insert(t.id, t));
}

proof fn lemma_live_count<C>(s: Seq<Timer<C>>)
    requires
        ascending(s),
    ensures
        live_of(s).dom().finite(),
        live_of(s).dom().len() == s.len(),
    decreases s.len(),
{
    if s.len() == 0 {
        assert(live_of(s) =~= Map::empty());
    } else {
        let front = s.drop_last();
        let last = s.last();
        assert(ascending(front)) by {
            assert forall|i: int, j: int| 0 <= i < j < front.len() implies front[i].id
                < front[j].id by {
                assert(front[i] == s[i]);
                assert(front[j] == s[j]);
            }
        }
        assert forall|i: int| 0 <= i < front.len() implies front[i].id < last.id by {
            assert(front[i] == s[i]);
        }
        lemma_live_count(front);
        lemma_live_push(front, last);
        assert(front.push(last) =~= s);
        assert(!live_of(front).contains_key(last.id)) by {
            if live_of(front).contains_key(last.id) {
                let i = position_of(front, last.id);
                assert(front[i].id < last.id);
            }
        }
        assert(live_of(s).dom() =~= live_of(front).dom().insert(last.id));
    }
}

impl<C> View for Timers<C> {
    type V = TimersModel<C>;

    closed spec fn view(&self) -> TimersModel<C> {
        TimersModel { live: live_of(self.timers@), next_id: self.next_id as nat }
    }
}

impl<C> Timers<C> {
    /// The representation is sound: ids grow in the order of creation and lie
    /// below the counter. Every constructor establishes this and every method
    /// keeps it.
    pub closed spec fn wf(&self) -> bool {
        &&& ascending(self.timers@)
        &&& forall|i: int| 0 <= i < self.timers@.len() ==> self.timers@[i].id < self.next_id
    }

    /// A sound collection has a sound model.
    pub proof fn lemma_wf_inv(&self)
        requires
            self.wf(),
        ensures
            self@.inv(),
            self@.next_id <= u32::MAX,
    {
        lemma_live_count(self.timers@);
        assert forall|id: u32| #[trigger] self@.live.contains_key(id) implies self@.live[id].id
            == id && (id as nat) < self@.next_id by {
            lemma_live_key(self.timers@, id);
        }
    }

    /// An empty collection whose first timer will get id 0.
    pub fn new() -> (timers: Timers<C>)
        ensures
            timers.wf(),
            timers@ == TimersModel::<C>::empty(),
    {
        let timers = Timers { timers: Vec::new(), next_id: 0 };
        assert(live_of(timers.timers@) =~= Map::empty());
        timers
    }

    /// The id that the next timer will get.
    pub fn next_id(&self) -> (id: u32)
        ensures
            id == self@.next_id,
    {
        self.next_id
    }

    /// Registers a timer that is due `delay` after `now`, repeating with period
    /// `delay` if `repeat` is set, and returns its id. Ids are handed out in
    /// increasing order and never again.
    pub fn create(&mut self, callback: C, delay: u64, repeat: bool, now: u64) -> (id: u32)
        requires
            old(self).wf(),
            old(self)@.next_id < u32::MAX,
            now + delay <= u64::MAX,
        ensures
            final(self).wf(),
            id == old(self)@.next_id,
            final(self)@ == old(self)@.create(callback, delay, repeat, now),
    {
        let id = self.next_id;
        let interval = if repeat {
            Some(delay)
        } else {
            None
        };
        let timer = Timer { id, due: now + delay, interval, callback };
        proof {
            lemma_live_push(self.timers@, timer);
        }
        self.timers.push(timer);
        self.next_id = id + 1;
        id
    }

    /// Where the timer `id` is kept, if it is live.
    fn position(&self, id: u32) -> (found: Option<usize>)
        requires
            self.wf(),
        ensures
            match found {
                Some(i) => i < self.timers@.len() && self.timers@[i as int].id == id
                    && self@.live.contains_key(id) && self@.live[id] == self.timers@[i as int],
                None => !self@.live.contains_key(id),
            },
    {
        let mut i: usize = 0;
        while i < self.timers.len()
            invariant
                self.wf(),
                i <= self.timers@.len(),
                forall|j: int| 0 <= j < i ==> self.timers@[j].id != id,
            decreases self.timers@.len() - i,
        {
            if self.timers[i].id == id {
                proof {
                    lemma_live_at(self.timers@, i as int);
                }
                return Some(i);
            }
            i += 1;
        }
        None
    }

    /// Removes the timer `id`. Removing an id that is not live changes nothing.
    pub fn remove(&mut self, id: u32)
        requires
            old(self).wf(),
        ensures
            final(self).wf(),
            final(self)@ == old(self)@.remove(id),
    {
        match self.position(id) {
            Some(i) => {
                proof {
                    lemma_live_remove(self.timers@, i as int);
                }
                self.timers.remove(i);
            },
            None => {
                assert(self@.live.remove(id) =~= self@.live);
            },
        }
    }

    /// The timer `id`, if it is live.
    pub fn get(&self, id: u32) -> (timer: Option<&Timer<C>>)
        requires
            self.wf(),
        ensures
            match timer {
                Some(t) => self@.live.contains_key(id) && *t == self@.live[id],
                None => !self@.live.contains_key(id),
            },
    {
        match self.position(id) {
            Some(i) => Some(&self.timers[i]),
            None => None,
        }
    }

    /// Moves the timer `id` to the instant `due`. An id that is not live
    /// changes nothing.
    pub fn reschedule(&mut self, id: u32, due: u64)
        requires
            old(self).wf(),
        ensures
            final(self).wf(),
            final(self)@ == old(self)@.reschedule(id, due),
    {
        match self.position(id) {
            Some(i) => {
                let t = self.timers.remove(i);
                let moved = Timer { id: t.id, due, interval: t.interval, callback: t.callback };
                proof {
                    assert(old(self).timers@.remove(i as int).insert(i as int, moved)
                        =~= old(self).timers@.update(i as int, moved));
                    lemma_live_update(old(self).timers@, i as int, moved);
                }
                self.timers.insert(i, moved);
            },
            None => {},
        }
    }

    /// The number of live timers.
    pub fn len(&self) -> (n: usize)
        requires
            self.wf(),
        ensures
            n == self@.live.dom().len(),
    {
        proof {
            lemma_live_count(self.timers@);
        }
        self.timers.len()
    }

    /// Whether no timer is live.
    pub fn is_empty(&self) -> (empty: bool)
        requires
            self.wf(),
        ensures
            empty == (self@.live == Map::<u32, Timer<C>>::empty()),
    {
        proof {
            lemma_live_count(self.timers@);
            if self.timers@.len() == 0 {
                assert(self@.live =~= Map::empty());
            } else {
                lemma_live_at(self.timers@, 0);
            }
        }
        self.timers.len() == 0
    }

    /// The timer that is due first, with its due instant: the smallest due
    /// instant wins, and among equal ones the lowest id. `None` when no timer
    /// is live.
    pub fn next_due(&self) -> (next: Option<(u32, u64)>)
        requires
            self.wf(),
        ensures
            match next {
                Some((id, due)) => self@.is_next_due(id) && due == self@.live[id].due,
                None => self@.live == Map::<u32, Timer<C>>::empty(),
            },
    {
        if self.timers.len() == 0 {
            assert(self@.live =~= Map::empty());
            return None;
        }
        let mut best: usize = 0;
        let mut i: usize = 1;
        while i < self.timers.len()
            invariant
                self.wf(),
                0 <= best < i <= self.timers@.len(),
                forall|j: int|
                    0 <= j < i ==> {
                        ||| self.timers@[best as int].due < self.timers@[j].due
                        ||| self.timers@[best as int].due == self.timers@[j].due && best <= j
                    },
            decreases self.timers@.len() - i,
        {
            if self.timers[i].due < self.timers[best].due {
                best = i;
            }
            i += 1;
        }
        let id = self.timers[best].id;
        let due = self.timers[best].due;
        proof {
            lemma_live_at(self.timers@, best as int);
            assert forall|other: u32| #[trigger] self@.live.contains_key(other) implies {
                ||| self@.live[id].due < self@.live[other].due
                ||| self@.live[id].due == self@.live[other].due && id <= other
            } by {
                lemma_live_key(self.timers@, other);
                let j = position_of(self.timers@, other);
                if best < j {
                    assert(self.timers@[best as int].id < self.timers@[j].id);
                }
            }
        }
        Some((id, due))
    }
}

/// What `setTimeout` or `setInterval` does with `callback` and `delay` at the
/// instant `now`: the collection afterwards and the id handed to the script,
/// or the error thrown where the callback is not callable.
pub open spec fn timer_set<C>(
    m: TimersModel<C>,
    callback: Option<C>,
    delay: u32,
    repeat: bool,
    now: u64,
) -> Result<(TimersModel<C>, u32), ProtocolError> {
    match callback {
        Some(f) => Ok((m.create(f, delay as u64, repeat, now), m.next_id as u32)),
        None => Err(ProtocolError::CallbackNotFunction),
    }
}

/// What `clearTimeout` or `clearInterval` does with `id`: an argument that is
/// no timer id changes nothing.
pub open spec fn timer_cleared<C>(m: TimersModel<C>, id: Option<u32>) -> TimersModel<C> {
    match id {
        Some(id) => m.remove(id),
        None => m,
    }
}

/// The binding behind `setTimeout` and `setInterval`. `callback` is the first
/// argument of the call, if it is callable; `delay` is the second, as the
/// unsigned integer that the engine converts it to.
pub fn set_timer<C>(
    timers: &mut Timers<C>,
    callback: Option<C>,
    delay: u32,
    repeat: bool,
    now: u64,
) -> (result: Result<u32, ProtocolError>)
    requires
        old(timers).wf(),
        old(timers)@.next_id < u32::MAX,
        now + delay <= u64::MAX,
    ensures
        final(timers).wf(),
        match result {
            Ok(id) => timer_set(old(timers)@, callback, delay, repeat, now) == Ok::<
                (TimersModel<C>, u32),
                ProtocolError,
            >((final(timers)@, id)),
            Err(e) => timer_set(old(timers)@, callback, delay, repeat, now) == Err::<
                (TimersModel<C>, u32),
                ProtocolError,
            >(e) && final(timers)@ == old(timers)@,
        },
{
    match callback {
        Some(f) => Ok(timers.create(f, delay as u64, repeat, now)),
        None => Err(ProtocolError::CallbackNotFunction),
    }
}

/// The `setTimeout` binding: a timer that fires once.
pub fn set_timeout<C>(timers: &mut Timers<C>, callback: Option<C>, delay: u32, now: u64) -> (result:
    Result<u32, ProtocolError>)
    requires
        old(timers).wf(),
        old(timers)@.next_id < u32::MAX,
        now + delay <= u64::MAX,
    ensures
        final(timers).wf(),
        match result {
            Ok(id) => timer_set(old(timers)@, callback, delay, false, now) == Ok::<
                (TimersModel<C>, u32),
                ProtocolError,
            >((final(timers)@, id)),
            Err(e) => timer_set(old(timers)@, callback, delay, false, now) == Err::<
                (TimersModel<C>, u32),
                ProtocolError,
            >(e) && final(timers)@ == old(timers)@,
        },
{
    set_timer(timers, callback, delay, false, now)
}

/// The `setInterval` binding: a timer that fires every `delay`.
pub fn set_interval<C>(timers: &mut Timers<C>, callback: Option<C>, delay: u32, now: u64) -> (result:
    Result<u32, ProtocolError>)
    requires
        old(timers).wf(),
        old(timers)@.next_id < u32::MAX,
        now + delay <= u64::MAX,
    ensures
        final(timers).wf(),
        match result {
            Ok(id) => timer_set(old(timers)@, callback, delay, true, now) == Ok::<
                (TimersModel<C>, u32),
                ProtocolError,
            >((final(timers)@, id)),
            Err(e) => timer_set(old(timers)@, callback, delay, true, now) == Err::<
                (TimersModel<C>, u32),
                ProtocolError,
            >(e) && final(timers)@ == old(timers)@,
        },
{
    set_timer(timers, callback, delay, true, now)
}

/// The binding behind `clearTimeout` and `clearInterval`. `id` is the first
/// argument of the call, if it is an unsigned integer. Returns the id that was
/// cleared, live or not.
pub fn clear_timer<C>(timers: &mut Timers<C>, id: Option<u32>) -> (cleared: Option<u32>)
    requires
        old(timers).wf(),
    ensures
        final(timers).wf(),
        cleared == id,
        final(timers)@ == timer_cleared(old(timers)@, id),
{
    match id {
        Some(id) => {
            timers.remove(id);
            Some(id)
        },
        None => None,
    }
}

/// The `clearTimeout` binding.
pub fn clear_timeout<C>(timers: &mut Timers<C>, id: Option<u32>) -> (cleared: Option<u32>)
    requires
        old(timers).wf(),
    ensures
        final(timers).wf(),
        cleared == id,
        final(timers)@ == timer_cleared(old(timers)@, id),
{
    clear_timer(timers, id)
}

/// The `clearInterval` binding.
pub fn clear_interval<C>(timers: &mut Timers<C>, id: Option<u32>) -> (cleared: Option<u32>)
    requires
        old(timers).wf(),
    ensures
        final(timers).wf(),
        cleared == id,
        final(timers)@ == timer_cleared(old(timers)@, id),
{
    clear_timer(timers, id)
}

/// The `queueMicrotask` binding: hands back the function to enqueue, or the
/// error thrown where the argument is not callable.
pub fn queue_microtask<C>(callback: Option<C>) -> (result: Result<C, ProtocolError>)
    ensures
        match result {
            Ok(f) => callback == Some(f),
            Err(e) => callback is None && e == ProtocolError::CallbackNotFunction,
        },
{
    match callback {
        Some(f) => Ok(f),
        None => Err(ProtocolError::CallbackNotFunction),
    }
}

} // verus!
