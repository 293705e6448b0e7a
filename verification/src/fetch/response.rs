//! The response that a script hands to `respondWith`, and its conversion from
//! what the script's value holds.

use crate::protocol::ProtocolError;
use vstd::prelude::*;

verus! {

/// A response on its way to the host.
#[derive(Debug)]
pub struct JsResponse {
    /// The status code.
    pub status: u16,
    /// The body, if the response has one.
    pub body: Option<String>,
    /// The headers, in the order in which the script's object lists them.
    pub headers: Vec<(String, String)>,
}

/// What a response is.
pub struct ResponseModel {
    pub status: u16,
    pub body: Option<Seq<char>>,
    pub headers: Seq<(Seq<char>, Seq<char>)>,
}

/// The texts of a list of string pairs.
pub open spec fn pair_texts(pairs: Seq<(String, String)>) -> Seq<(Seq<char>, Seq<char>)> {
    pairs.map_values(|pair: (String, String)| (pair.0@, pair.1@))
}

impl View for JsResponse {
    type V = ResponseModel;

    open spec fn view(&self) -> ResponseModel {
        ResponseModel {
            status: self.status,
            body: match self.body {
                Some(text) => Some(text@),
                None => None,
            },
            headers: pair_texts(self.headers@),
        }
    }
}

/// A property of a script object, as a binding finds it.
pub enum Field<T> {
    /// The property is missing or `undefined`.
    Absent,
    /// The property has the expected type.
    Valid(T),
    /// The property is present with another type.
    Invalid,
}

/// What a script handed to `respondWith`, once any promise around it has
/// settled.
pub enum ResponseValue {
    /// The value is `null` or `undefined` and has no properties to read.
    Nothing,
    /// The value's properties.
    Object {
        /// `status`: valid when it is a number, given as the unsigned 32-bit
        /// integer that the engine converts it to.
        status: Field<u32>,
        /// `body`, stringified; absent when the property is missing.
        body: Option<String>,
        /// `headers`: valid when it is an object, given as its own enumerable
        /// properties, names and values stringified.
        headers: Field<Vec<(String, String)>>,
    },
}

/// The status that a response is sent with when the script names none.
pub const DEFAULT_STATUS: u16 = 200;

/// The status of the response that stands in for a malformed one.
pub const STATUS_CONVERSION_FAILED: u16 = 500;

/// The response that `value` converts to, if it converts: the status must be a
/// number that fits a status code and defaults to 200, the body defaults to the
/// empty string, and the headers must be an object and default to none.
pub open spec fn converted(value: ResponseValue) -> Option<ResponseModel> {
    match value {
        ResponseValue::Nothing => None,
        ResponseValue::Object { status, body, headers } => {
            if status is Invalid || headers is Invalid {
                None
            } else if status is Valid && status->Valid_0 > u16::MAX {
                None
            } else {
                Some(
                    ResponseModel {
                        status: match status {
                            Field::Valid(n) => n as u16,
                            _ => DEFAULT_STATUS,
                        },
                        body: match body {
                            Some(text) => Some(text@),
                            None => Some(Seq::<char>::empty()),
                        },
                        headers: match headers {
                            Field::Valid(pairs) => pair_texts(pairs@),
                            _ => Seq::<(Seq<char>, Seq<char>)>::empty(),
                        },
                    },
                )
            }
        },
    }
}

/// The response with `status`, no body and no headers.
pub open spec fn bare(status: u16) -> ResponseModel {
    ResponseModel { status, body: None, headers: Seq::<(Seq<char>, Seq<char>)>::empty() }
}

impl JsResponse {
    /// A response with `status`, no body and no headers.
    pub fn new(status: u16) -> (response: JsResponse)
        ensures
            response@ == bare(status),
            response.status == status,
            response.body is None,
            response.headers@.len() == 0,
    {
        let response = JsResponse { status, body: None, headers: Vec::new() };
        assert(response@.headers =~= Seq::<(Seq<char>, Seq<char>)>::empty());
        response
    }

    /// Converts what a script handed to `respondWith`. A malformed value
    /// converts to `None`; it never panics.
    pub fn from_value(value: ResponseValue) -> (response: Option<JsResponse>)
        ensures
            match response {
                Some(r) => converted(value) == Some(r@),
                None => converted(value) is None,
            },
    {
        match value {
            ResponseValue::Nothing => None,
            ResponseValue::Object { status, body, headers } => {
                let status: u16 = match status {
                    Field::Absent => DEFAULT_STATUS,
                    Field::Valid(n) => {
                        if n > 0xffff {
                            return None;
                        }
                        n as u16
                    },
                    Field::Invalid => {
                        return None;
                    },
                };
                let headers: Vec<(String, String)> = match headers {
                    Field::Absent => Vec::new(),
                    Field::Valid(pairs) => pairs,
                    Field::Invalid => {
                        return None;
                    },
                };
                let body = match body {
                    Some(text) => text,
                    None => String::new(),
                };
                let response = JsResponse { status, body: Some(body), headers };
                assert(response@.headers =~= converted(value)->0.headers);
                Some(response)
            },
        }
    }

    /// The response that the host gets for what a script handed to
    /// `respondWith`: the converted value, or a bare 500 where the value is
    /// malformed.
    pub fn from_value_or_error(value: ResponseValue) -> (response: JsResponse)
        ensures
            response@ == match converted(value) {
                Some(r) => r,
                None => bare(STATUS_CONVERSION_FAILED),
            },
    {
        match JsResponse::from_value(value) {
            Some(response) => response,
            None => JsResponse::new(STATUS_CONVERSION_FAILED),
        }
    }
}

/// The options that a script handed to the `Response` constructor.
pub struct ResponseOptions {
    /// `status`: valid when it is an unsigned 32-bit integer.
    pub status: Field<u32>,
    /// `statusText`: valid when it is a string.
    pub status_text: Field<String>,
    /// `headers`, where it is an object: its own enumerable properties.
    pub headers: Option<Vec<(String, String)>>,
}

/// The second argument of the `Response` constructor.
pub enum OptionsArg {
    /// `null` or `undefined`.
    Absent,
    /// An object.
    Object(ResponseOptions),
    /// Anything else.
    Invalid,
}

/// What a script handed to the `Response` constructor.
pub struct ConstructorArgs {
    /// The number of arguments of the call.
    pub count: usize,
    /// The first argument, if it is a string.
    pub body: Option<String>,
    /// The second argument.
    pub options: OptionsArg,
}

/// The fields that the `Response` constructor sets on the new object.
pub struct ResponseInit {
    pub body: String,
    pub status: u32,
    pub status_text: String,
    pub headers: Vec<(String, String)>,
}

/// What a constructed response is.
pub struct ResponseInitModel {
    pub body: Seq<char>,
    pub status: u32,
    pub status_text: Seq<char>,
    pub headers: Seq<(Seq<char>, Seq<char>)>,
}

impl View for ResponseInit {
    type V = ResponseInitModel;

    open spec fn view(&self) -> ResponseInitModel {
        ResponseInitModel {
            body: self.body@,
            status: self.status,
            status_text: self.status_text@,
            headers: pair_texts(self.headers@),
        }
    }
}

/// The fields that the options give a response: status 200, status text
/// `OK` and no headers where the options name none.
pub open spec fn with_options(body: Seq<char>, options: ResponseOptions) -> Result<
    ResponseInitModel,
    ProtocolError,
> {
    if options.status is Invalid {
        Err(ProtocolError::InvalidStatus)
    } else if options.status_text is Invalid {
        Err(ProtocolError::InvalidStatusText)
    } else {
        Ok(
            ResponseInitModel {
                body,
                status: match options.status {
                    Field::Valid(n) => n,
                    _ => 200,
                },
                status_text: match options.status_text {
                    Field::Valid(text) => text@,
                    _ => "OK"@,
                },
                headers: match options.headers {
                    Some(pairs) => pair_texts(pairs@),
                    None => Seq::<(Seq<char>, Seq<char>)>::empty(),
                },
            },
        )
    }
}

/// What the `Response` constructor makes of `args`: the fields of the new
/// object, or the error thrown. The body is the first argument where that is a
/// string, and empty otherwise.
pub open spec fn constructed(args: ConstructorArgs) -> Result<ResponseInitModel, ProtocolError> {
    let body = match args.body {
        Some(text) => text@,
        None => Seq::<char>::empty(),
    };
    if args.count > 2 {
        Err(ProtocolError::ResponseArgumentCount)
    } else {
        match args.options {
            OptionsArg::Invalid => Err(ProtocolError::InvalidOptions),
            OptionsArg::Absent => Ok(
                ResponseInitModel {
                    body,
                    status: 200,
                    status_text: "OK"@,
                    headers: Seq::<(Seq<char>, Seq<char>)>::empty(),
                },
            ),
            OptionsArg::Object(options) => with_options(body, options),
        }
    }
}

/// The `Response` constructor: checks what the script handed over and decides
/// the fields of the new object.
pub fn construct_response(args: ConstructorArgs) -> (result: Result<ResponseInit, ProtocolError>)
    ensures
        match result {
            Ok(init) => constructed(args) == Ok::<ResponseInitModel, ProtocolError>(init@),
            Err(e) => constructed(args) == Err::<ResponseInitModel, ProtocolError>(e),
        },
{
    if args.count > 2 {
        return Err(ProtocolError::ResponseArgumentCount);
    }
    let body = match args.body {
        Some(text) => text,
        None => String::new(),
    };
    let options = match args.options {
        OptionsArg::Invalid => {
            return Err(ProtocolError::InvalidOptions);
        },
        OptionsArg::Absent => ResponseOptions {
            status: Field::Absent,
            status_text: Field::Absent,
            headers: None,
        },
        OptionsArg::Object(options) => options,
    };
    let status: u32 = match options.status {
        Field::Absent => 200,
        Field::Valid(n) => n,
        Field::Invalid => {
            return Err(ProtocolError::InvalidStatus);
        },
    };
    let status_text = match options.status_text {
        Field::Absent => "OK".to_string(),
        Field::Valid(text) => text,
        Field::Invalid => {
            return Err(ProtocolError::InvalidStatusText);
        },
    };
    let headers: Vec<(String, String)> = match options.headers {
        Some(pairs) => pairs,
        None => Vec::new(),
    };
    let init = ResponseInit { body, status, status_text, headers };
    assert(init@.headers =~= constructed(args)->Ok_0.headers);
    Ok(init)
}

} // verus!
