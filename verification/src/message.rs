//! Messages between the runtime and the worker: the envelope that the runtime
//! sends, the single message handler that `onMessage` registers, and what
//! `postMessage` does with a message from the worker.
//!
//! The timer that a `timer` message arms is a single field of the context,
//! beside the timer collection; scripts are meant to use `setTimeout` and
//! `setInterval`, and this path is kept for workers that still post messages.

use crate::events::Dispatch;
use crate::protocol::ProtocolError;
use crate::text::same_text;
use vstd::prelude::*;
use vstd::string::*;

verus! {

/// A message that the runtime sends to the worker.
pub trait RuntimeMessage {
    /// The message's kind.
    spec fn kind_text(&self) -> Seq<char>;

    /// The message's kind: the `kind` field of the envelope that the handler
    /// gets.
    fn kind(&self) -> (kind: String)
        ensures
            kind@ == self.kind_text(),
    ;
}

/// A message of some kind with an optional payload: the envelope has the
/// fields `kind` and, where there is a payload, `data`.
#[derive(Debug)]
pub struct RuntimeBasicMessage<D> {
    kind: String,
    data: Option<D>,
}

impl<D> RuntimeBasicMessage<D> {
    /// The payload of the message.
    pub closed spec fn payload(&self) -> Option<D> {
        self.data
    }

    /// The kind of the message.
    pub closed spec fn kind_of(&self) -> Seq<char> {
        self.kind@
    }

    /// A message of kind `kind` without payload.
    pub fn new(kind: String) -> (message: RuntimeBasicMessage<D>)
        ensures
            message.kind_of() == kind@,
            message.payload() is None,
    {
        RuntimeBasicMessage { kind, data: None }
    }

    /// A message of kind `kind` with the payload `data`.
    pub fn new_with_data(kind: String, data: D) -> (message: RuntimeBasicMessage<D>)
        ensures
            message.kind_of() == kind@,
            message.payload() == Some(data),
    {
        RuntimeBasicMessage { kind, data: Some(data) }
    }

    /// Gives the message the payload `data`, in place of any it had.
    pub fn set_data(&mut self, data: D)
        ensures
            final(self).kind_of() == old(self).kind_of(),
            final(self).payload() == Some(data),
    {
        self.data = Some(data);
    }

    /// Takes the payload off the message.
    pub fn clear_data(&mut self)
        ensures
            final(self).kind_of() == old(self).kind_of(),
            final(self).payload() is None,
    {
        self.data = None;
    }

    /// The payload, if the message has one.
    pub fn data(&self) -> (data: Option<&D>)
        ensures
            match data {
                Some(d) => self.payload() == Some(*d),
                None => self.payload() is None,
            },
    {
        self.data.as_ref()
    }
}

impl<D> RuntimeMessage for RuntimeBasicMessage<D> {
    closed spec fn kind_text(&self) -> Seq<char> {
        self.kind@
    }

    fn kind(&self) -> (kind: String) {
        self.kind.clone()
    }
}

/// The one handler that a worker registers with `onMessage`.
pub struct MessageHandler<H> {
    handler: Option<H>,
}

impl<H> View for MessageHandler<H> {
    type V = Option<H>;

    closed spec fn view(&self) -> Option<H> {
        self.handler
    }
}

/// What `onMessage` does with `callback` when `current` is registered: the
/// handler that is registered afterwards, or the error thrown.
pub open spec fn handler_outcome<H>(current: Option<H>, callback: Option<H>) -> Result<
    Option<H>,
    ProtocolError,
> {
    if callback is None {
        Err(ProtocolError::HandlerNotFunction)
    } else if current is Some {
        Err(ProtocolError::HandlerAlreadyRegistered)
    } else {
        Ok(callback)
    }
}

impl<H> MessageHandler<H> {
    /// No handler registered.
    pub fn new() -> (slot: MessageHandler<H>)
        ensures
            slot@ is None,
    {
        MessageHandler { handler: None }
    }

    /// The `onMessage` binding. `callback` is the first argument of the call,
    /// if it is callable. A second handler is refused, and the first one stays.
    pub fn register(&mut self, callback: Option<H>) -> (result: Result<(), ProtocolError>)
        ensures
            match result {
                Ok(_) => handler_outcome(old(self)@, callback) == Ok::<Option<H>, ProtocolError>(
                    final(self)@,
                ),
                Err(e) => handler_outcome(old(self)@, callback) == Err::<Option<H>, ProtocolError>(
                    e,
                ) && final(self)@ == old(self)@,
            },
    {
        match callback {
            None => Err(ProtocolError::HandlerNotFunction),
            Some(callback) => {
                if self.handler.is_some() {
                    Err(ProtocolError::HandlerAlreadyRegistered)
                } else {
                    self.handler = Some(callback);
                    Ok(())
                }
            },
        }
    }

    /// Decides what sending a message to the worker means: one call of the
    /// registered handler, or nothing where none is registered.
    pub fn send_message<'a>(&'a self) -> (plan: Dispatch<'a, H>)
        ensures
            match plan {
                Dispatch::Invoke(h) => self@ == Some(*h),
                Dispatch::NoHandler => self@ is None,
            },
    {
        match &self.handler {
            Some(handler) => Dispatch::Invoke(handler),
            None => Dispatch::NoHandler,
        }
    }
}

/// The kinds of message that `postMessage` knows.
#[derive(Debug, Clone, Copy, PartialEq, Eq, Structural)]
pub enum MessageKind {
    /// A line for the console.
    Console,
    /// Arms or disarms the context's ambient timer.
    Timer,
    /// Asks for the canned answer to a request.
    Fetch,
    /// Any other kind: the message is reported and dropped.
    Other,
}

/// The kind that the text `kind` names.
pub open spec fn kind_named(kind: Seq<char>) -> MessageKind {
    if kind == "console"@ {
        MessageKind::Console
    } else if kind == "timer"@ {
        MessageKind::Timer
    } else if kind == "fetch"@ {
        MessageKind::Fetch
    } else {
        MessageKind::Other
    }
}

/// What `postMessage` makes of a call with `count` arguments, the first of
/// which has the `kind` field `kind`.
pub open spec fn posted(count: usize, kind: Seq<char>) -> Result<MessageKind, ProtocolError> {
    if count != 1 {
        Err(ProtocolError::MessageArgumentCount)
    } else {
        Ok(kind_named(kind))
    }
}

/// The `postMessage` binding, first half: checks the call and names the kind
/// of the message, by which the host reads the fields that the kind needs.
pub fn message_from_worker(count: usize, kind: &str) -> (result: Result<MessageKind, ProtocolError>)
    ensures
        result == posted(count, kind@),
{
    if count != 1 {
        return Err(ProtocolError::MessageArgumentCount);
    }
    if same_text(kind, "console") {
        Ok(MessageKind::Console)
    } else if same_text(kind, "timer") {
        Ok(MessageKind::Timer)
    } else if same_text(kind, "fetch") {
        Ok(MessageKind::Fetch)
    } else {
        Ok(MessageKind::Other)
    }
}

/// The texts `args`, each with a blank before it.
pub open spec fn spaced(args: Seq<Seq<char>>) -> Seq<char>
    decreases args.len(),
{
    if args.len() == 0 {
        Seq::<char>::empty()
    } else {
        spaced(args.drop_last()) + " "@ + args.last()
    }
}

/// The texts of a list of arguments.
pub open spec fn arg_texts(args: Seq<String>) -> Seq<Seq<char>> {
    args.map_values(|arg: String| arg@)
}

/// The line that a `console` message prints.
pub open spec fn console_text(level: Seq<char>, stamp: Seq<char>, args: Seq<Seq<char>>) -> Seq<
    char,
> {
    "["@ + stamp + "] console."@ + level + ":"@ + spaced(args)
}

/// The line that the console's logger prints for a call at `level`.
pub open spec fn logger_text(level: Seq<char>, args: Seq<Seq<char>>) -> Seq<char> {
    "console output: ["@ + level + "]"@ + spaced(args)
}

/// The body of the canned answer to a `fetch` message for `url`.
pub open spec fn canned_body(url: Seq<char>) -> Seq<char> {
    "Response for "@ + url
}

fn append_spaced(line: &mut String, args: &Vec<String>)
    ensures
        final(line)@ == old(line)@ + spaced(arg_texts(args@)),
{
    let ghost start = line@;
    let ghost texts = arg_texts(args@);
    let mut i: usize = 0;
    assert(texts.subrange(0, 0) =~= Seq::<Seq<char>>::empty());
    while i < args.len()
        invariant
            i <= args@.len(),
            texts == arg_texts(args@),
            line@ == start + spaced(texts.subrange(0, i as int)),
        decreases args@.len() - i,
    {
        proof {
            let upto = texts.subrange(0, i + 1);
            assert(upto.drop_last() =~= texts.subrange(0, i as int));
            assert(upto.last() == args@[i as int]@);
            assert(line@ + " "@ + args@[i as int]@ =~= start + spaced(upto));
        }
        line.append(" ");
        line.append(args[i].as_str());
        i += 1;
    }
    assert(texts.subrange(0, args@.len() as int) =~= texts);
}

/// Formats the line of a `console` message whose date was rendered as `stamp`.
pub fn console_line(level: &str, stamp: &str, args: &Vec<String>) -> (line: String)
    ensures
        line@ == console_text(level@, stamp@, arg_texts(args@)),
{
    let mut line = "[".to_string();
    line.append(stamp);
    line.append("] console.");
    line.append(level);
    line.append(":");
    append_spaced(&mut line, args);
    line
}

/// Formats the line of a `console` message dated `date` milliseconds after
/// the epoch; `None` where no calendar date stands for `date`.
pub fn console_record(level: &str, date: i64, args: &Vec<String>) -> (line: Option<String>)
    ensures
        match line {
            Some(text) => naive_timestamp(date) is Some && text@ == console_text(
                level@,
                naive_timestamp(date)->0,
                arg_texts(args@),
            ),
            None => naive_timestamp(date) is None,
        },
{
    match timestamp_text(date) {
        Some(stamp) => Some(console_line(level, stamp.as_str(), args)),
        None => None,
    }
}

/// Formats the line that the console's logger prints: the level, and after
/// it the arguments of the call, each rendered by the host.
pub fn logger_line(level: &str, args: &Vec<String>) -> (line: String)
    ensures
        line@ == logger_text(level@, arg_texts(args@)),
{
    let mut line = "console output: [".to_string();
    line.append(level);
    line.append("]");
    append_spaced(&mut line, args);
    line
}

/// The answer to a `fetch` message: the body of the canned response, or the
/// error thrown where the message's `sendResponse` is not callable.
pub fn fetch_message_reply(url: &str, send_response_is_function: bool) -> (result: Result<
    String,
    ProtocolError,
>)
    ensures
        match result {
            Ok(body) => send_response_is_function && body@ == canned_body(url@),
            Err(e) => !send_response_is_function && e == ProtocolError::SendResponseNotFunction,
        },
{
    if !send_response_is_function {
        return Err(ProtocolError::SendResponseNotFunction);
    }
    let mut body = "Response for ".to_string();
    body.append(url);
    Ok(body)
}

/// What the ambient timer asks of the loop.
#[derive(Debug, Clone, Copy, PartialEq, Eq, Structural)]
pub enum AmbientPoll {
    /// The timer is not armed: the loop is finished.
    Idle,
    /// The timer is armed and due `delay` from now: the loop sleeps.
    Sleep { delay: u64 },
    /// The timer was due and is disarmed now: the handler gets a `timer`
    /// message as a microtask, and the loop goes round again.
    Fire,
}

/// The single timer that `timer` messages arm and disarm.
pub struct AmbientTimer {
    due: Option<u64>,
}

impl View for AmbientTimer {
    type V = Option<u64>;

    closed spec fn view(&self) -> Option<u64> {
        self.due
    }
}

/// The due instant after a `timer` message with `delay` arrived at `now`: a
/// message without delay disarms the timer.
pub open spec fn armed(delay: Option<u64>, now: u64) -> Option<u64> {
    match delay {
        Some(d) => Some((now + d) as u64),
        None => None,
    }
}

/// What the ambient timer, due at `due`, asks at `now`, and its due instant
/// afterwards.
pub open spec fn ambient_polled(due: Option<u64>, now: u64) -> (Option<u64>, AmbientPoll) {
    match due {
        None => (None, AmbientPoll::Idle),
        Some(at) => if at > now {
            (due, AmbientPoll::Sleep { delay: (at - now) as u64 })
        } else {
            (None, AmbientPoll::Fire)
        },
    }
}

impl AmbientTimer {
    /// A timer that is not armed.
    pub fn new() -> (timer: AmbientTimer)
        ensures
            timer@ is None,
    {
        AmbientTimer { due: None }
    }

    /// Handles a `timer` message that arrived at `now`: arms the timer to fire
    /// `delay` later, or disarms it where the message has no delay.
    pub fn set(&mut self, delay: Option<u64>, now: u64)
        requires
            delay is Some ==> now + delay->0 <= u64::MAX,
        ensures
            final(self)@ == armed(delay, now),
    {
        match delay {
            Some(d) => {
                self.due = Some(now + d);
            },
            None => {
                self.due = None;
            },
        }
    }

    /// Polls the timer at `now`. A timer that is due fires once and is
    /// disarmed.
    pub fn poll_timer(&mut self, now: u64) -> (poll: AmbientPoll)
        ensures
            (final(self)@, poll) == ambient_polled(old(self)@, now),
    {
        match self.due {
            None => AmbientPoll::Idle,
            Some(at) => {
                if at > now {
                    AmbientPoll::Sleep { delay: at - now }
                } else {
                    self.due = None;
                    AmbientPoll::Fire
                }
            },
        }
    }
}

/// The text in which the calendar date that lies `millis` milliseconds after
/// the epoch is shown; `None` where the calendar has no such date.
pub uninterp spec fn naive_timestamp(millis: i64) -> Option<Seq<char>>;

/// Calls `chrono::NaiveDateTime::from_timestamp_millis` and renders the date
/// with its `Debug` form. Trusted: the text depends on `millis` alone, and
/// there is none exactly where the date is out of the calendar's range.
#[verifier::external_body]
#[allow(deprecated)]
fn timestamp_text(millis: i64) -> (text: Option<String>)
    ensures
        match text {
            Some(t) => naive_timestamp(millis) == Some(t@),
            None => naive_timestamp(millis) is None,
        },
{
    match ::chrono::NaiveDateTime::from_timestamp_millis(millis) {
        Some(date) => Some(format!("{:?}", date)),
        None => None,
    }
}

} // verus!
