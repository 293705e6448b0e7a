//! The host's side of a fetch: what it sends when the script answered, when it
//! did not, and how a response goes onto the wire.

use crate::fetch::response::pair_texts;
use crate::fetch::response::JsResponse;
use crate::fetch::response::ResponseModel;
use crate::text::same_text;
use vstd::prelude::*;

verus! {

/// How the host's wait for a reply ended.
pub enum HostOutcome {
    /// No `fetch` handler is registered, so no event was dispatched.
    NoHandler,
    /// The host's own timeout ran out before a reply came.
    TimedOut,
    /// The reply's sender was dropped without a reply.
    Dropped,
    /// The script replied.
    Replied(JsResponse),
}

/// The status with which the host reports that the script failed.
pub const STATUS_FAILED: u16 = 500;

/// The status with which the host reports that the script did not answer in
/// time.
pub const STATUS_NO_ANSWER: u16 = 504;

/// The content type of a response that names none.
pub open spec fn default_content_type() -> Seq<char> {
    "text/plain; charset=utf-8"@
}

/// The content type of the host's own diagnostics.
pub open spec fn diagnostic_content_type() -> Seq<char> {
    "text/html; charset=utf-8"@
}

/// The response with which the host reports a failure of the bridge: a short
/// diagnostic body, and a header that names the worker except where no event
/// was created.
pub open spec fn diagnostic(status: u16, body: Seq<char>, worker: Option<Seq<char>>) -> ResponseModel {
    ResponseModel {
        status,
        body: Some(body),
        headers: match worker {
            Some(id) => seq![("Content-Type"@, diagnostic_content_type()), ("X-Worker-Id"@, id)],
            None => seq![("Content-Type"@, diagnostic_content_type())],
        },
    }
}

/// The response that the host sends for `outcome`. The host always sends some
/// response: the script's own, or a diagnostic of the 500 class.
pub open spec fn host_reply(outcome: HostOutcome, worker_id: Seq<char>) -> ResponseModel {
    match outcome {
        HostOutcome::NoHandler => diagnostic(
            STATUS_FAILED,
            "Cannot create event, check your response type"@,
            None,
        ),
        HostOutcome::TimedOut => diagnostic(STATUS_NO_ANSWER, "Timeout"@, Some(worker_id)),
        HostOutcome::Dropped => diagnostic(STATUS_FAILED, "Error"@, Some(worker_id)),
        HostOutcome::Replied(response) => response@,
    }
}

/// Whether `status` can be sent as an HTTP status code.
pub open spec fn sendable(status: u16) -> bool {
    100 <= status < 1000
}

/// The first header of `headers` with the name `name`, compared letter for
/// letter.
pub open spec fn header_value(headers: Seq<(Seq<char>, Seq<char>)>, name: Seq<char>) -> Option<
    Seq<char>,
>
    decreases headers.len(),
{
    if headers.len() == 0 {
        None
    } else if headers[0].0 == name {
        Some(headers[0].1)
    } else {
        header_value(headers.drop_first(), name)
    }
}

fn diagnostic_response(status: u16, body: &str, worker_id: Option<&str>) -> (response: JsResponse)
    ensures
        response@ == diagnostic(
            status,
            body@,
            match worker_id {
                Some(id) => Some(id@),
                None => None,
            },
        ),
{
    let mut headers: Vec<(String, String)> = Vec::new();
    headers.push(("Content-Type".to_string(), "text/html; charset=utf-8".to_string()));
    match worker_id {
        Some(id) => {
            headers.push(("X-Worker-Id".to_string(), id.to_string()));
        },
        None => {},
    }
    let response = JsResponse { status, body: Some(body.to_string()), headers };
    assert(response@.headers =~= diagnostic(
        status,
        body@,
        match worker_id {
            Some(id) => Some(id@),
            None => None,
        },
    ).headers);
    response
}

/// Decides what the host sends when its wait for the script's reply has ended.
pub fn host_response(outcome: HostOutcome, worker_id: &str) -> (response: JsResponse)
    ensures
        response@ == host_reply(outcome, worker_id@),
{
    match outcome {
        HostOutcome::NoHandler => diagnostic_response(
            STATUS_FAILED,
            "Cannot create event, check your response type",
            None,
        ),
        HostOutcome::TimedOut => diagnostic_response(STATUS_NO_ANSWER, "Timeout", Some(worker_id)),
        HostOutcome::Dropped => diagnostic_response(STATUS_FAILED, "Error", Some(worker_id)),
        HostOutcome::Replied(response) => response,
    }
}

/// Calls `actix_web::http::StatusCode::from_u16` and says whether it accepted
/// the number. Trusted: it accepts the numbers from 100 up to 999.
#[verifier::external_body]
fn is_status_code(status: u16) -> (accepted: bool)
    ensures
        accepted == sendable(status),
{
    ::actix_web::http::StatusCode::from_u16(status).is_ok()
}

impl JsResponse {
    /// The value of the first header named `name`, compared letter for letter.
    pub fn header(&self, name: &str) -> (value: Option<&String>)
        ensures
            match value {
                Some(text) => header_value(self@.headers, name@) == Some(text@),
                None => header_value(self@.headers, name@) is None,
            },
    {
        let mut i: usize = 0;
        assert(self@.headers.subrange(0, self.headers@.len() as int) =~= self@.headers);
        while i < self.headers.len()
            invariant
                i <= self.headers@.len(),
                self@.headers.len() == self.headers@.len(),
                header_value(self@.headers, name@) == header_value(
                    self@.headers.subrange(i as int, self.headers@.len() as int),
                    name@,
                ),
            decreases self.headers@.len() - i,
        {
            let ghost rest = self@.headers.subrange(i as int, self.headers@.len() as int);
            assert(rest[0] == self@.headers[i as int]);
            assert(rest.drop_first() =~= self@.headers.subrange(
                i + 1,
                self.headers@.len() as int,
            ));
            if same_text(self.headers[i].0.as_str(), name) {
                return Some(&self.headers[i].1);
            }
            i += 1;
        }
        None
    }

    /// The content type to send: the response's `Content-Type` header, or
    /// plain text where it has none.
    pub fn content_type(&self) -> (content_type: String)
        ensures
            content_type@ == match header_value(self@.headers, "Content-Type"@) {
                Some(text) => text,
                None => default_content_type(),
            },
    {
        match self.header("Content-Type") {
            Some(text) => text.clone(),
            None => "text/plain; charset=utf-8".to_string(),
        }
    }

    /// The status to send: the response's own where it is an HTTP status
    /// code, 500 where it is not.
    pub fn wire_status(&self) -> (status: u16)
        ensures
            status == if sendable(self.status) {
                self.status
            } else {
                STATUS_FAILED
            },
            sendable(status),
    {
        if is_status_code(self.status) {
            self.status
        } else {
            STATUS_FAILED
        }
    }

    /// The body to send: the response's own, or nothing where it has none.
    pub fn wire_body(&self) -> (body: String)
        ensures
            body@ == match self@.body {
                Some(text) => text,
                None => Seq::<char>::empty(),
            },
    {
        match &self.body {
            Some(text) => text.clone(),
            None => String::new(),
        }
    }
}

/// Whatever ends the host's wait, the host has a response to send; without a
/// reply from the script it is of the 500 class, and 504 where time ran out.
pub proof fn lemma_host_always_answers(outcome: HostOutcome, worker_id: Seq<char>)
    ensures
        !(outcome is Replied) ==> 500 <= host_reply(outcome, worker_id).status < 600,
        outcome is TimedOut ==> host_reply(outcome, worker_id).status == 504,
        outcome is Replied ==> host_reply(outcome, worker_id) == outcome->Replied_0@,
{
}

} // verus!
