//! Events and the registry of their handlers.
//!
//! A context keeps at most one handler per event type. A script registers a
//! handler with `addEventListener`; the host dispatches an event by looking the
//! handler up, releasing the registry, and only then invoking it.

use crate::fetch::bridge::BridgeModel;
use crate::fetch::bridge::FetchBridge;
use crate::fetch::bridge::FetchState;
use crate::fetch::bridge::Settlement;
use crate::fetch::request::JsRequest;
use crate::protocol::ProtocolError;
use crate::text::same_text;
use vstd::prelude::*;

verus! {

/// Something that can be dispatched to a handler.
pub trait JsEventTrait {
    /// The event type under which handlers are looked up.
    spec fn kind_text(&self) -> Seq<char>;

    /// The event type under which handlers are looked up.
    fn event_type(&self) -> (name: String)
        ensures
            name@ == self.kind_text(),
    ;
}

/// An event that carries nothing but its type.
pub struct JsEvent {
    event_type: String,
}

impl JsEvent {
    /// An event of type `name`.
    pub fn new(name: String) -> (event: JsEvent)
        ensures
            event.kind_text() == name@,
    {
        JsEvent { event_type: name }
    }
}

impl JsEventTrait for JsEvent {
    closed spec fn kind_text(&self) -> Seq<char> {
        self.event_type@
    }

    fn event_type(&self) -> (name: String) {
        self.event_type.clone()
    }
}

/// An inbound request on its way to the `fetch` handler, with the single-use
/// reply that the handler's `respondWith` fills.
pub struct JsFetchEvent {
    /// The request that the handler sees.
    pub request: JsRequest,
    /// The way of the handler's answer back to the host.
    pub bridge: FetchBridge,
}

impl JsFetchEvent {
    /// The fetch event for `request`: fresh, with no reply yet.
    pub fn new(request: JsRequest) -> (event: JsFetchEvent)
        ensures
            event.request == request,
            event.bridge@ == BridgeModel::fresh(),
    {
        JsFetchEvent { request, bridge: FetchBridge::new() }
    }

    /// The `respondWith` of the event: takes the handler's answer. The first
    /// answer of a dispatched event is kept for the host; any other call
    /// changes nothing. The result says whether the answer was kept.
    pub fn respond_with(&mut self, settlement: Settlement) -> (kept: bool)
        ensures
            kept == (old(self).bridge@.state == FetchState::Dispatched),
            final(self).bridge@ == old(self).bridge@.answered(settlement),
            final(self).request == old(self).request,
    {
        self.bridge.respond_with(settlement)
    }
}

impl JsEventTrait for JsFetchEvent {
    open spec fn kind_text(&self) -> Seq<char> {
        "fetch"@
    }

    fn event_type(&self) -> (name: String) {
        "fetch".to_string()
    }
}

/// One registration.
pub struct Listener<H> {
    /// The event type that the handler serves.
    pub event_type: String,
    /// The script function to call.
    pub handler: H,
}

/// The handlers of a context, by event type.
pub struct Handlers<H> {
    listeners: Vec<Listener<H>>,
}

/// The position at which `s` holds the listener for `event_type`.
spec fn slot_of<H>(s: Seq<Listener<H>>, event_type: Seq<char>) -> int {
    choose|i: int| 0 <= i < s.len() && s[i].event_type@ == event_type
}

/// The handlers of `s` by event type.
spec fn handlers_of<H>(s: Seq<Listener<H>>) -> Map<Seq<char>, H> {
    Map::new(
        |event_type: Seq<char>| exists|i: int| 0 <= i < s.len() && s[i].event_type@ == event_type,
        |event_type: Seq<char>| s[slot_of(s, event_type)].handler,
    )
}

/// No event type occurs twice in `s`.
spec fn distinct<H>(s: Seq<Listener<H>>) -> bool {
    forall|i: int, j: int|
        0 <= i < j < s.len() ==> s[i].event_type@ != s[j].event_type@
}

proof fn lemma_handler_at<H>(s: Seq<Listener<H>>, i: int)
    requires
        distinct(s),
        0 <= i < s.len(),
    ensures
        handlers_of(s).contains_key(s[i].event_type@),
        handlers_of(s)[s[i].event_type@] == s[i].handler,
{
    let p = slot_of(s, s[i].event_type@);
    assert(0 <= p < s.len() && s[p].event_type@ == s[i].event_type@);
    if p < i {
        assert(s[p].event_type@ != s[i].event_type@);
    } else if i < p {
        assert(s[i].event_type@ != s[p].event_type@);
    }
}

proof fn lemma_handlers_push<H>(s: Seq<Listener<H>>, l: Listener<H>)
    requires
        distinct(s),
        !handlers_of(s).contains_key(l.event_type@),
    ensures
        distinct(s.push(l)),
        handlers_of(s.push(l)) == handlers_of(s).insert(l.event_type@, l.handler),
{
    let s2 = s.push(l);
    assert forall|i: int, j: int| 0 <= i < j < s2.len() implies s2[i].event_type@
        != s2[j].event_type@ by {
        if j == s.len() {
            assert(s2[i] == s[i]);
            if s[i].event_type@ == l.event_type@ {
                assert(handlers_of(s).contains_key(l.event_type@));
            }
        } else {
            assert(s2[i] == s[i] && s2[j] == s[j]);
        }
    }
    assert(distinct(s2));
    let target = handlers_of(s).insert(l.event_type@, l.handler);
    assert forall|k: Seq<char>| handlers_of(s2).contains_key(k) <==> #[trigger] target.contains_key(
        k,
    ) by {
        if handlers_of(s2).contains_key(k) {
            let i = slot_of(s2, k);
            if i < s.len() {
                assert(s[i].event_type@ == k);
            }
        }
        if handlers_of(s).contains_key(k) {
            let i = slot_of(s, k);
            assert(s2[i].event_type@ == k);
        }
        if k == l.event_type@ {
            assert(s2[s.len() as int].event_type@ == k);
        }
    }
    assert forall|k: Seq<char>| #[trigger] handlers_of(s2).contains_key(k) implies handlers_of(
        s2,
    )[k] == target[k] by {
        let i = slot_of(s2, k);
        lemma_handler_at(s2, i);
        if i < s.len() {
            assert(s2[i] == s[i]);
            lemma_handler_at(s, i);
        }
    }
    assert(handlers_of(s2) =~= target);
}

impl<H> View for Handlers<H> {
    type V = Map<Seq<char>, H>;

    closed spec fn view(&self) -> Map<Seq<char>, H> {
        handlers_of(self.listeners@)
    }
}

/// What the host does with an event.
pub enum Dispatch<'a, H> {
    /// No handler is registered for the event type: nothing is called.
    NoHandler,
    /// Call this handler once and hand its result back.
    Invoke(&'a H),
}

/// What a script handed to `addEventListener`.
pub struct ListenerArgs<H> {
    /// The number of arguments of the call.
    pub count: usize,
    /// The first argument, if it is a string.
    pub event_type: Option<String>,
    /// The second argument, if it is callable.
    pub listener: Option<H>,
}

/// What `addEventListener` does with `args` on the registry `handlers`: the
/// first check that fails decides the error.
pub open spec fn listener_outcome<H>(handlers: Map<Seq<char>, H>, args: ListenerArgs<H>) -> Result<
    Map<Seq<char>, H>,
    ProtocolError,
> {
    if args.count < 2 {
        Err(ProtocolError::MissingListenerArguments)
    } else if args.event_type is None {
        Err(ProtocolError::EventTypeNotString)
    } else if args.listener is None {
        Err(ProtocolError::ListenerNotFunction)
    } else if handlers.contains_key(args.event_type->0@) {
        Err(ProtocolError::ListenerAlreadyRegistered)
    } else {
        Ok(handlers.insert(args.event_type->0@, args.listener->0))
    }
}

impl<H> Handlers<H> {
    /// No event type has two handlers. Every constructor establishes this and
    /// every method keeps it.
    pub closed spec fn wf(&self) -> bool {
        distinct(self.listeners@)
    }

    /// A registry without handlers.
    pub fn new() -> (handlers: Handlers<H>)
        ensures
            handlers.wf(),
            handlers@ == Map::<Seq<char>, H>::empty(),
    {
        let handlers = Handlers { listeners: Vec::new() };
        assert(handlers@ =~= Map::<Seq<char>, H>::empty());
        handlers
    }

    fn slot(&self, event_type: &str) -> (found: Option<usize>)
        requires
            self.wf(),
        ensures
            match found {
                Some(i) => i < self.listeners@.len() && self@.contains_key(event_type@)
                    && self@[event_type@] == self.listeners@[i as int].handler,
                None => !self@.contains_key(event_type@),
            },
    {
        let mut i: usize = 0;
        while i < self.listeners.len()
            invariant
                self.wf(),
                i <= self.listeners@.len(),
                forall|j: int| 0 <= j < i ==> self.listeners@[j].event_type@ != event_type@,
            decreases self.listeners@.len() - i,
        {
            if same_text(self.listeners[i].event_type.as_str(), event_type) {
                proof {
                    lemma_handler_at(self.listeners@, i as int);
                }
                return Some(i);
            }
            i += 1;
        }
        None
    }

    /// Whether a handler is registered for `event_type`.
    pub fn has_handler(&self, event_type: &str) -> (found: bool)
        requires
            self.wf(),
        ensures
            found == self@.contains_key(event_type@),
    {
        self.slot(event_type).is_some()
    }

    /// Whether the script has registered a `fetch` handler.
    pub fn has_fetch_handler(&self) -> (found: bool)
        requires
            self.wf(),
        ensures
            found == self@.contains_key("fetch"@),
    {
        self.has_handler("fetch")
    }

    /// The handler registered for `event_type`, if there is one.
    pub fn get(&self, event_type: &str) -> (handler: Option<&H>)
        requires
            self.wf(),
        ensures
            match handler {
                Some(h) => self@.contains_key(event_type@) && *h == self@[event_type@],
                None => !self@.contains_key(event_type@),
            },
    {
        match self.slot(event_type) {
            Some(i) => Some(&self.listeners[i].handler),
            None => None,
        }
    }

    /// Registers `handler` for `event_type`. A second handler for the same
    /// type is refused, and the first one stays.
    pub fn register(&mut self, event_type: String, handler: H) -> (result: Result<
        (),
        ProtocolError,
    >)
        requires
            old(self).wf(),
        ensures
            final(self).wf(),
            match result {
                Ok(_) => !old(self)@.contains_key(event_type@) && final(self)@ == old(self)@.insert(
                    event_type@,
                    handler,
                ),
                Err(e) => e == ProtocolError::ListenerAlreadyRegistered && old(self)@.contains_key(
                    event_type@,
                ) && final(self)@ == old(self)@,
            },
    {
        match self.slot(event_type.as_str()) {
            Some(_) => Err(ProtocolError::ListenerAlreadyRegistered),
            None => {
                let listener = Listener { event_type, handler };
                proof {
                    lemma_handlers_push(self.listeners@, listener);
                }
                self.listeners.push(listener);
                Ok(())
            },
        }
    }

    /// The `addEventListener` binding: checks what the script handed over and
    /// registers the listener. On an error nothing is registered.
    pub fn add_event_listener(&mut self, args: ListenerArgs<H>) -> (result: Result<
        (),
        ProtocolError,
    >)
        requires
            old(self).wf(),
        ensures
            final(self).wf(),
            match result {
                Ok(_) => listener_outcome(old(self)@, args) == Ok::<
                    Map<Seq<char>, H>,
                    ProtocolError,
                >(final(self)@),
                Err(e) => listener_outcome(old(self)@, args) == Err::<
                    Map<Seq<char>, H>,
                    ProtocolError,
                >(e) && final(self)@ == old(self)@,
            },
    {
        if args.count < 2 {
            return Err(ProtocolError::MissingListenerArguments);
        }
        let event_type = match args.event_type {
            Some(event_type) => event_type,
            None => {
                return Err(ProtocolError::EventTypeNotString);
            },
        };
        let listener = match args.listener {
            Some(listener) => listener,
            None => {
                return Err(ProtocolError::ListenerNotFunction);
            },
        };
        self.register(event_type, listener)
    }

    /// Decides what dispatching `event` means: one call of the handler that
    /// is registered for its type, or nothing where none is registered.
    pub fn dispatch_event<'a, E: JsEventTrait>(&'a self, event: &E) -> (plan: Dispatch<'a, H>)
        requires
            self.wf(),
        ensures
            match plan {
                Dispatch::Invoke(h) => self@.contains_key(event.kind_text()) && *h
                    == self@[event.kind_text()],
                Dispatch::NoHandler => !self@.contains_key(event.kind_text()),
            },
    {
        let name = event.event_type();
        trigger_event(name.as_str(), self)
    }
}

/// Decides what triggering the event type `event` means: one call of the
/// registered handler, or nothing where none is registered. The registry is
/// only read: the host invokes the handler after it has let go of the
/// registry, so that the handler may register listeners itself.
pub fn trigger_event<'a, H>(event: &str, handlers: &'a Handlers<H>) -> (plan: Dispatch<'a, H>)
    requires
        handlers.wf(),
    ensures
        match plan {
            Dispatch::Invoke(h) => handlers@.contains_key(event@) && *h == handlers@[event@],
            Dispatch::NoHandler => !handlers@.contains_key(event@),
        },
{
    match handlers.get(event) {
        Some(handler) => Dispatch::Invoke(handler),
        None => Dispatch::NoHandler,
    }
}

/// A handler that was registered once is the one that every dispatch of its
/// event type invokes; an event type without a handler is answered with
/// "no handler"; a second registration fails and leaves the first in place.
pub proof fn lemma_registered_once<H>(
    handlers: Map<Seq<char>, H>,
    event_type: String,
    first: H,
    second: H,
    other: Seq<char>,
)
    requires
        !handlers.contains_key(event_type@),
    ensures
        ({
            let args = ListenerArgs { count: 2, event_type: Some(event_type), listener: Some(first) };
            let again = ListenerArgs {
                count: 2,
                event_type: Some(event_type),
                listener: Some(second),
            };
            let after = handlers.insert(event_type@, first);
            &&& listener_outcome(handlers, args) == Ok::<Map<Seq<char>, H>, ProtocolError>(after)
            &&& after.contains_key(event_type@) && after[event_type@] == first
            &&& listener_outcome(after, again) == Err::<Map<Seq<char>, H>, ProtocolError>(
                ProtocolError::ListenerAlreadyRegistered,
            )
            &&& other != event_type@ ==> (after.contains_key(other) <==> handlers.contains_key(
                other,
            ))
        }),
{
}

} // verus!
