//! Errors that a native binding throws back into the script that called it.

use vstd::prelude::*;

verus! {

/// A misuse of a native binding by the script. The host never sees these as
/// failures of its own calls: the binding throws them into the script.
#[derive(Debug, Clone, Copy, PartialEq, Eq, Structural)]
pub enum ProtocolError {
    /// `addEventListener` was called with fewer than two arguments.
    MissingListenerArguments,
    /// The event type handed to `addEventListener` is not a string.
    EventTypeNotString,
    /// The listener handed to `addEventListener` is not callable.
    ListenerNotFunction,
    /// A listener for the event type is registered already.
    ListenerAlreadyRegistered,
    /// The handler handed to `onMessage` is not callable.
    HandlerNotFunction,
    /// A message handler is registered already.
    HandlerAlreadyRegistered,
    /// `postMessage` was not called with exactly one argument.
    MessageArgumentCount,
    /// The `sendResponse` of a fetch message is not callable.
    SendResponseNotFunction,
    /// The callback handed to a timer or to `queueMicrotask` is not callable.
    CallbackNotFunction,
    /// `Response` was constructed with more than two arguments.
    ResponseArgumentCount,
    /// The options handed to `Response` are neither absent nor an object.
    InvalidOptions,
    /// The `status` option is present and not an unsigned integer.
    InvalidStatus,
    /// The `statusText` option is present and not a string.
    InvalidStatusText,
    /// `atob` or `btoa` was called without an argument.
    MissingCodecArgument,
    /// The text handed to `atob` is not base64.
    InvalidBase64,
}

impl ProtocolError {
    /// The text of the exception.
    pub open spec fn text(self) -> Seq<char> {
        match self {
            ProtocolError::MissingListenerArguments =>
                "2 arguments required, but fewer were provided."@,
            ProtocolError::EventTypeNotString => "Expected a string as the first argument"@,
            ProtocolError::ListenerNotFunction => "Expected a function as the second argument"@,
            ProtocolError::ListenerAlreadyRegistered => "Listener already registered"@,
            ProtocolError::HandlerNotFunction => "Arg 0 is not a function"@,
            ProtocolError::HandlerAlreadyRegistered => "Handler already registered"@,
            ProtocolError::MessageArgumentCount => "postMessage expects 1 argument"@,
            ProtocolError::SendResponseNotFunction => "sendResponse is not a function"@,
            ProtocolError::CallbackNotFunction => "Argument must be a function"@,
            ProtocolError::ResponseArgumentCount =>
                "Response constructor takes at most 2 arguments"@,
            ProtocolError::InvalidOptions => "invalid options"@,
            ProtocolError::InvalidStatus => "invalid status"@,
            ProtocolError::InvalidStatusText => "statusText must be a string"@,
            ProtocolError::MissingCodecArgument => "1 argument required, but only 0 present"@,
            ProtocolError::InvalidBase64 => "Invalid base64 input string"@,
        }
    }

    /// Whether the exception is a `TypeError` rather than a plain `Error`.
    pub open spec fn wrong_type(self) -> bool {
        match self {
            ProtocolError::HandlerNotFunction => true,
            ProtocolError::MessageArgumentCount => true,
            ProtocolError::SendResponseNotFunction => true,
            ProtocolError::CallbackNotFunction => true,
            ProtocolError::ResponseArgumentCount => true,
            ProtocolError::InvalidOptions => true,
            ProtocolError::InvalidStatus => true,
            ProtocolError::InvalidStatusText => true,
            _ => false,
        }
    }

    /// The message with which the exception is thrown.
    pub fn message(&self) -> (text: String)
        ensures
            text@ == self.text(),
    {
        match self {
            ProtocolError::MissingListenerArguments =>
                "2 arguments required, but fewer were provided.".to_string(),
            ProtocolError::EventTypeNotString =>
                "Expected a string as the first argument".to_string(),
            ProtocolError::ListenerNotFunction =>
                "Expected a function as the second argument".to_string(),
            ProtocolError::ListenerAlreadyRegistered => "Listener already registered".to_string(),
            ProtocolError::HandlerNotFunction => "Arg 0 is not a function".to_string(),
            ProtocolError::HandlerAlreadyRegistered => "Handler already registered".to_string(),
            ProtocolError::MessageArgumentCount => "postMessage expects 1 argument".to_string(),
            ProtocolError::SendResponseNotFunction =>
                "sendResponse is not a function".to_string(),
            ProtocolError::CallbackNotFunction => "Argument must be a function".to_string(),
            ProtocolError::ResponseArgumentCount =>
                "Response constructor takes at most 2 arguments".to_string(),
            ProtocolError::InvalidOptions => "invalid options".to_string(),
            ProtocolError::InvalidStatus => "invalid status".to_string(),
            ProtocolError::InvalidStatusText => "statusText must be a string".to_string(),
            ProtocolError::MissingCodecArgument =>
                "1 argument required, but only 0 present".to_string(),
            ProtocolError::InvalidBase64 => "Invalid base64 input string".to_string(),
        }
    }

    /// Whether the exception is thrown as a `TypeError`.
    pub fn is_type_error(&self) -> (wrong_type: bool)
        ensures
            wrong_type == self.wrong_type(),
    {
        match self {
            ProtocolError::HandlerNotFunction => true,
            ProtocolError::MessageArgumentCount => true,
            ProtocolError::SendResponseNotFunction => true,
            ProtocolError::CallbackNotFunction => true,
            ProtocolError::ResponseArgumentCount => true,
            ProtocolError::InvalidOptions => true,
            ProtocolError::InvalidStatus => true,
            ProtocolError::InvalidStatusText => true,
            _ => false,
        }
    }
}

} // verus!
