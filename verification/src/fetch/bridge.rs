//! The way of a script's answer back to the host: waiting for a promise to
//! settle within a fixed budget, and the single-use reply of a fetch event.

use crate::fetch::response::bare;
use crate::fetch::response::converted;
use crate::fetch::response::JsResponse;
use crate::fetch::response::ResponseModel;
use crate::fetch::response::ResponseValue;
use crate::fetch::response::STATUS_CONVERSION_FAILED;
use vstd::prelude::*;

verus! {

/// How often a pending promise is looked at again before the bridge gives up.
pub const SETTLE_ATTEMPTS: u32 = 10;

/// How long the bridge sleeps between two looks at a pending promise, in
/// milliseconds.
pub const SETTLE_DELAY: u64 = 10;

/// The status of the response that stands in for a promise that stayed
/// pending.
pub const STATUS_TIMED_OUT: u16 = 504;

/// The status of the response that stands in for a rejected promise.
pub const STATUS_REJECTED: u16 = 500;

/// The state of a promise, as the engine reports it.
#[derive(Debug, Clone, Copy, PartialEq, Eq, Structural)]
pub enum PromiseState {
    Pending,
    Fulfilled,
    Rejected,
}

/// What the bridge does after a look at the promise.
#[derive(Debug, Clone, Copy, PartialEq, Eq, Structural)]
pub enum SettleAction {
    /// Drain the microtasks, sleep for `delay`, and look again.
    Wait { delay: u64 },
    /// The promise is fulfilled: take its value and convert it.
    Unwrap,
    /// Answer with a bare response of this status.
    Reply { status: u16 },
}

/// What one look at a promise in `state` leads to when `remaining` further
/// looks are left: the looks that are left afterwards, and the action.
pub open spec fn observed(remaining: nat, state: PromiseState) -> (nat, SettleAction) {
    match state {
        PromiseState::Fulfilled => (remaining, SettleAction::Unwrap),
        PromiseState::Rejected => (remaining, SettleAction::Reply { status: STATUS_REJECTED }),
        PromiseState::Pending => if remaining == 0 {
            (remaining, SettleAction::Reply { status: STATUS_TIMED_OUT })
        } else {
            ((remaining - 1) as nat, SettleAction::Wait { delay: SETTLE_DELAY })
        },
    }
}

/// The action that ends the wait when the promise shows `states` at successive
/// looks; `None` while the bridge is still waiting after the last of them.
pub open spec fn outcome(remaining: nat, states: Seq<PromiseState>) -> Option<SettleAction>
    decreases states.len(),
{
    if states.len() == 0 {
        None
    } else {
        match observed(remaining, states[0]).1 {
            SettleAction::Wait { .. } => outcome(
                observed(remaining, states[0]).0,
                states.drop_first(),
            ),
            action => Some(action),
        }
    }
}

/// The bounded wait for one promise.
pub struct PromiseWait {
    remaining: u32,
}

impl View for PromiseWait {
    type V = nat;

    closed spec fn view(&self) -> nat {
        self.remaining as nat
    }
}

impl PromiseWait {
    /// A wait with the full budget.
    pub fn new() -> (wait: PromiseWait)
        ensures
            wait@ == SETTLE_ATTEMPTS,
    {
        PromiseWait { remaining: SETTLE_ATTEMPTS }
    }

    /// The looks that are left.
    pub fn remaining(&self) -> (remaining: u32)
        ensures
            remaining == self@,
    {
        self.remaining
    }

    /// Decides what follows a look at the promise. A fulfilled promise is
    /// unwrapped, a rejected one answered with 500; a pending one is waited
    /// for while the budget lasts and answered with 504 when it is spent.
    pub fn observe(&mut self, state: PromiseState) -> (action: SettleAction)
        ensures
            (final(self)@, action) == observed(old(self)@, state),
    {
        match state {
            PromiseState::Fulfilled => SettleAction::Unwrap,
            PromiseState::Rejected => SettleAction::Reply { status: STATUS_REJECTED },
            PromiseState::Pending => {
                if self.remaining == 0 {
                    SettleAction::Reply { status: STATUS_TIMED_OUT }
                } else {
                    self.remaining = self.remaining - 1;
                    SettleAction::Wait { delay: SETTLE_DELAY }
                }
            },
        }
    }
}

/// The wait for a promise ends: with more looks than the budget holds, the
/// bridge has stopped waiting, whatever the promise did.
pub proof fn lemma_wait_is_bounded(remaining: nat, states: Seq<PromiseState>)
    requires
        states.len() > remaining,
    ensures
        outcome(remaining, states) is Some,
        !(outcome(remaining, states)->0 is Wait),
    decreases states.len(),
{
    match observed(remaining, states[0]).1 {
        SettleAction::Wait { .. } => {
            lemma_wait_is_bounded((remaining - 1) as nat, states.drop_first());
        },
        _ => {},
    }
}

/// A promise that stays pending is answered with 504 once the budget is spent.
pub proof fn lemma_pending_times_out(remaining: nat, states: Seq<PromiseState>)
    requires
        states.len() > remaining,
        forall|i: int| 0 <= i < states.len() ==> states[i] == PromiseState::Pending,
    ensures
        outcome(remaining, states) == Some(SettleAction::Reply { status: STATUS_TIMED_OUT }),
    decreases states.len(),
{
    if remaining > 0 {
        let rest = states.drop_first();
        assert forall|i: int| 0 <= i < rest.len() implies rest[i] == PromiseState::Pending by {
            assert(rest[i] == states[i + 1]);
        }
        lemma_pending_times_out((remaining - 1) as nat, rest);
    }
}

/// A promise that settles while the budget lasts ends the wait at once: a
/// rejected one with 500, a fulfilled one with its value.
pub proof fn lemma_settled_ends_wait(
    remaining: nat,
    states: Seq<PromiseState>,
    at: int,
)
    requires
        0 <= at < states.len(),
        at <= remaining,
        forall|i: int| 0 <= i < at ==> states[i] == PromiseState::Pending,
        states[at] != PromiseState::Pending,
    ensures
        states[at] == PromiseState::Rejected ==> outcome(remaining, states) == Some(
            SettleAction::Reply { status: STATUS_REJECTED },
        ),
        states[at] == PromiseState::Fulfilled ==> outcome(remaining, states) == Some(
            SettleAction::Unwrap,
        ),
    decreases at,
{
    if at > 0 {
        let rest = states.drop_first();
        assert(states[0] == PromiseState::Pending);
        assert forall|i: int| 0 <= i < at - 1 implies rest[i] == PromiseState::Pending by {
            assert(rest[i] == states[i + 1]);
        }
        assert(rest[at - 1] == states[at]);
        lemma_settled_ends_wait((remaining - 1) as nat, rest, at - 1);
    }
}

/// How a call of `respondWith` ended.
pub enum Settlement {
    /// With a value, handed over directly or through a fulfilled promise.
    Value(ResponseValue),
    /// With a promise that was rejected.
    Rejected,
    /// With a promise that was still pending when the budget was spent.
    TimedOut,
}

/// The response that the host gets for a settlement.
pub open spec fn reply_of(settlement: Settlement) -> ResponseModel {
    match settlement {
        Settlement::Value(value) => match converted(value) {
            Some(response) => response,
            None => bare(STATUS_CONVERSION_FAILED),
        },
        Settlement::Rejected => bare(STATUS_REJECTED),
        Settlement::TimedOut => bare(STATUS_TIMED_OUT),
    }
}

/// Where a fetch event stands.
#[derive(Debug, Clone, Copy, PartialEq, Eq, Structural)]
pub enum FetchState {
    /// The event exists and was not handed to a handler yet.
    Created,
    /// The event is with its handler, which has not answered.
    Dispatched,
    /// The handler answered with a well-formed response.
    Fulfilled,
    /// The handler's answer was malformed, or its promise was rejected.
    Rejected,
    /// The handler's promise did not settle in time.
    TimedOut,
}

/// The state that a settlement leaves a dispatched event in.
pub open spec fn settled_state(settlement: Settlement) -> FetchState {
    match settlement {
        Settlement::Value(value) => if converted(value) is Some {
            FetchState::Fulfilled
        } else {
            FetchState::Rejected
        },
        Settlement::Rejected => FetchState::Rejected,
        Settlement::TimedOut => FetchState::TimedOut,
    }
}

/// What a fetch bridge is: its state, and the reply that waits for the host.
pub struct BridgeModel {
    pub state: FetchState,
    pub reply: Option<ResponseModel>,
}

impl BridgeModel {
    /// The bridge of a fresh event.
    pub open spec fn fresh() -> BridgeModel {
        BridgeModel { state: FetchState::Created, reply: None }
    }

    /// The bridge after its event was handed to a handler: only a fresh event
    /// moves.
    pub open spec fn dispatched(self) -> BridgeModel {
        if self.state == FetchState::Created {
            BridgeModel { state: FetchState::Dispatched, reply: self.reply }
        } else {
            self
        }
    }

    /// The bridge after a call of `respondWith` that ended with `settlement`:
    /// only the first answer of a dispatched event is kept.
    pub open spec fn answered(self, settlement: Settlement) -> BridgeModel {
        if self.state == FetchState::Dispatched {
            BridgeModel { state: settled_state(settlement), reply: Some(reply_of(settlement)) }
        } else {
            self
        }
    }
}

/// The script's side of one fetch event: it takes the answer of `respondWith`
/// once and keeps it for the host.
pub struct FetchBridge {
    state: FetchState,
    reply: Option<JsResponse>,
}

impl View for FetchBridge {
    type V = BridgeModel;

    closed spec fn view(&self) -> BridgeModel {
        BridgeModel {
            state: self.state,
            reply: match self.reply {
                Some(response) => Some(response@),
                None => None,
            },
        }
    }
}

impl FetchBridge {
    /// The bridge of a fresh event.
    pub fn new() -> (bridge: FetchBridge)
        ensures
            bridge@ == BridgeModel::fresh(),
    {
        FetchBridge { state: FetchState::Created, reply: None }
    }

    /// Where the event stands.
    pub fn state(&self) -> (state: FetchState)
        ensures
            state == self@.state,
    {
        self.state
    }

    /// Marks the event as handed to its handler. Only a fresh event can be
    /// dispatched; the result says whether this one was.
    pub fn dispatch(&mut self) -> (dispatched: bool)
        ensures
            dispatched == (old(self)@.state == FetchState::Created),
            final(self)@ == old(self)@.dispatched(),
    {
        match self.state {
            FetchState::Created => {
                self.state = FetchState::Dispatched;
                true
            },
            _ => false,
        }
    }

    /// Takes the answer of `respondWith`. The first answer of a dispatched
    /// event is kept for the host; any other call changes nothing. The result
    /// says whether the answer was kept.
    pub fn respond_with(&mut self, settlement: Settlement) -> (kept: bool)
        ensures
            kept == (old(self)@.state == FetchState::Dispatched),
            final(self)@ == old(self)@.answered(settlement),
    {
        match self.state {
            FetchState::Dispatched => {
                let (state, reply) = match settlement {
                    Settlement::Value(value) => match JsResponse::from_value(value) {
                        Some(response) => (FetchState::Fulfilled, response),
                        None => (FetchState::Rejected, JsResponse::new(STATUS_CONVERSION_FAILED)),
                    },
                    Settlement::Rejected => (FetchState::Rejected, JsResponse::new(STATUS_REJECTED)),
                    Settlement::TimedOut => (FetchState::TimedOut, JsResponse::new(STATUS_TIMED_OUT)),
                };
                self.state = state;
                self.reply = Some(reply);
                true
            },
            _ => false,
        }
    }

    /// Hands the reply to the host, if the handler has answered. The reply is
    /// handed out once.
    pub fn take_reply(&mut self) -> (reply: Option<JsResponse>)
        ensures
            match reply {
                Some(response) => old(self)@.reply == Some(response@),
                None => old(self)@.reply is None,
            },
            final(self)@ == (BridgeModel { state: old(self)@.state, reply: None }),
    {
        self.reply.take()
    }
}

/// An event that was dispatched and answered holds the reply of that answer,
/// and a second answer does not replace it. A rejected promise leaves a 500, a
/// promise that stayed pending a 504, and a malformed value a 500.
pub proof fn lemma_first_answer_stands(first: Settlement, second: Settlement)
    ensures
        ({
            let answered = BridgeModel::fresh().dispatched().answered(first);
            &&& answered.reply == Some(reply_of(first))
            &&& answered.answered(second) == answered
            &&& answered.dispatched() == answered
            &&& first is Rejected ==> reply_of(first) == bare(500)
            &&& first is TimedOut ==> reply_of(first) == bare(504)
            &&& first is Value && converted(first->Value_0) is None ==> reply_of(first) == bare(
                500,
            )
            &&& first is Value && converted(first->Value_0) is Some ==> Some(reply_of(first))
                == converted(first->Value_0)
        }),
{
}

} // verus!
