//! The state of one execution context.

use crate::events::Handlers;
use crate::timers::Timers;
use vstd::prelude::*;

verus! {

/// What the native callbacks of a context share: the registered handlers and
/// the live timers. The context owns it, and a callback borrows it only while
/// no script function is running.
pub struct JsState<F> {
    /// The handlers by event type.
    pub handlers: Handlers<F>,
    /// The timers.
    pub timers: Timers<F>,
}

impl<F> JsState<F> {
    /// Both parts are sound.
    pub open spec fn wf(&self) -> bool {
        self.handlers.wf() && self.timers.wf()
    }

    /// The state of a fresh context: no handler, no timer.
    pub fn new() -> (state: JsState<F>)
        ensures
            state.wf(),
            state.handlers@ == Map::<Seq<char>, F>::empty(),
            state.timers@ == crate::timers::TimersModel::<F>::empty(),
    {
        JsState { handlers: Handlers::new(), timers: Timers::new() }
    }
}

} // verus!
