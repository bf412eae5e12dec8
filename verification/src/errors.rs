//! The error channel of the client, and the decoder for the error bodies the
//! remote service returns.
//!
//! The service is not consistent about its error envelope: a non-success
//! response may carry a single message object or a list of message objects,
//! and a message object may use a short field set or a long one, each with
//! aliased field names.  The decoder therefore tries the shapes in a fixed,
//! documented order — a single object before a list, and the short field set
//! before the long one — and accepts the first that matches.

use vstd::assert_seqs_equal;
use vstd::prelude::*;

use crate::json::{
    get_opt_str_field, get_opt_u64_field, json_as_array, json_as_str, json_get, opt_str_field,
    opt_u64_field, parse_json, Jv,
};

verus! {

/// A local precondition failure during credential acquisition or refresh.
#[derive(Clone, Copy, Debug, PartialEq, Eq, Structural)]
pub enum AuthError {
    MissingUsername,
    MissingPassword,
    NoRefreshToken,
}

impl AuthError {
    /// The human-readable description of the failure.
    pub fn message(&self) -> (r: &'static str)
        ensures
            match self {
                AuthError::MissingUsername => r@ == "Missing username configuration"@,
                AuthError::MissingPassword => r@ == "Missing password configuration"@,
                AuthError::NoRefreshToken => r@ == "There is no refresh token"@,
            },
    {
        match self {
            AuthError::MissingUsername => "Missing username configuration",
            AuthError::MissingPassword => "Missing password configuration",
            AuthError::NoRefreshToken => "There is no refresh token",
        }
    }
}

/// Everything a client operation can fail with.
///
/// `Http` and `Io` carry the description of a transport or local I/O failure
/// reported by the caller's surroundings; `Json` carries the description of a
/// body that could not be decoded; `Api` carries a structured error the
/// remote service returned with a non-success status.
#[derive(Debug)]
pub enum Error {
    Api(Response),
    Auth(AuthError),
    Http(String),
    InvalidScope(String),
    Io(String),
    Json(String),
}

/// A structured error body: a single message object, or a list of them.
#[derive(Clone, Debug, PartialEq, Eq)]
pub enum Response {
    Message(Box<Message>),
    Messages(Vec<Message>),
}

/// One error message object, in either of the two field sets the service
/// uses.
#[derive(Clone, Debug, PartialEq, Eq)]
pub enum Message {
    Short { message: String, description: String },
    Long {
        message: String,
        instance: Option<String>,
        error_code: Option<String>,
        param: Option<String>,
        ty: Option<String>,
        title: Option<String>,
        status: Option<u8>,
        detail: Option<String>,
    },
}

/// The abstract content of a decoded [`Message`].
pub enum MessageModel {
    Short { message: Seq<char>, description: Seq<char> },
    Long {
        message: Seq<char>,
        instance: Option<Seq<char>>,
        error_code: Option<Seq<char>>,
        param: Option<Seq<char>>,
        ty: Option<Seq<char>>,
        title: Option<Seq<char>>,
        status: Option<u8>,
        detail: Option<Seq<char>>,
    },
}

/// The abstract content of a decoded [`Response`].
pub enum ResponseModel {
    Message(MessageModel),
    Messages(Seq<MessageModel>),
}

impl View for Message {
    type V = MessageModel;

    open spec fn view(&self) -> MessageModel {
        match self {
            Message::Short { message, description } => MessageModel::Short {
                message: message@,
                description: description@,
            },
            Message::Long { message, instance, error_code, param, ty, title, status, detail } => (
            MessageModel::Long {
                message: message@,
                instance: instance.deep_view(),
                error_code: error_code.deep_view(),
                param: param.deep_view(),
                ty: ty.deep_view(),
                title: title.deep_view(),
                status: *status,
                detail: detail.deep_view(),
            }),
        }
    }
}

impl DeepView for Message {
    type V = MessageModel;

    open spec fn deep_view(&self) -> MessageModel {
        self.view()
    }
}

impl View for Response {
    type V = ResponseModel;

    open spec fn view(&self) -> ResponseModel {
        match self {
            Response::Message(m) => ResponseModel::Message(m@),
            Response::Messages(ms) => ResponseModel::Messages(ms.deep_view()),
        }
    }
}

/// The entry an object supplies for a field that may go by two names: the
/// primary name wins when both are present.
pub open spec fn field_entry(m: Map<Seq<char>, Jv>, primary: Seq<char>, alias: Seq<char>) -> Option<
    Jv,
> {
    if m.contains_key(primary) {
        Some(m[primary])
    } else if m.contains_key(alias) {
        Some(m[alias])
    } else {
        None
    }
}

/// A required string field: supplied exactly when the entry chosen by
/// [`field_entry`] is a JSON string.
pub open spec fn str_field(m: Map<Seq<char>, Jv>, primary: Seq<char>, alias: Seq<char>) -> Option<
    Seq<char>,
> {
    match field_entry(m, primary, alias) {
        Some(Jv::Str(s)) => Some(s),
        _ => None,
    }
}

/// The optional `status` field: present values must be integers that fit in a
/// `u8`, anything else fails the shape.
pub open spec fn status_field(m: Map<Seq<char>, Jv>) -> Option<Option<u8>> {
    match opt_u64_field(m, "status"@) {
        Some(None) => Some(None),
        Some(Some(n)) => if n <= 255 {
            Some(Some(n as u8))
        } else {
            None
        },
        None => None,
    }
}

/// The short message shape: `message` (alias `error`) and `description`
/// (alias `error_description`), both strings.
pub open spec fn short_of(m: Map<Seq<char>, Jv>) -> Option<MessageModel> {
    match (str_field(m, "message"@, "error"@), str_field(m, "description"@, "error_description"@)) {
        (Some(message), Some(description)) => Some(MessageModel::Short { message, description }),
        _ => None,
    }
}

/// The long message shape: `message` (alias `error_message`) as a string,
/// and a fixed set of optional fields that must be well-typed when present.
pub open spec fn long_of(m: Map<Seq<char>, Jv>) -> Option<MessageModel> {
    match (
        str_field(m, "message"@, "error_message"@),
        opt_str_field(m, "instance"@),
        opt_str_field(m, "error_code"@),
        opt_str_field(m, "param"@),
        opt_str_field(m, "type"@),
        opt_str_field(m, "title"@),
        status_field(m),
        opt_str_field(m, "detail"@),
    ) {
        (
            Some(message),
            Some(instance),
            Some(error_code),
            Some(param),
            Some(ty),
            Some(title),
            Some(status),
            Some(detail),
        ) => Some(
            MessageModel::Long { message, instance, error_code, param, ty, title, status, detail },
        ),
        _ => None,
    }
}

/// One message object: an object matching the short shape, else the long one.
pub open spec fn message_of(j: Jv) -> Option<MessageModel> {
    match j {
        Jv::Obj(m) => match short_of(m) {
            Some(msg) => Some(msg),
            None => long_of(m),
        },
        _ => None,
    }
}

/// The whole error body: a single message object, else a list in which every
/// element is a message object.
pub open spec fn response_of(j: Jv) -> Option<ResponseModel> {
    match message_of(j) {
        Some(msg) => Some(ResponseModel::Message(msg)),
        None => match j {
            Jv::Arr(elems) => if forall|i: int|
                0 <= i < elems.len() ==> message_of(elems[i]) is Some {
                Some(
                    ResponseModel::Messages(
                        Seq::new(elems.len(), |i: int| message_of(elems[i])->0),
                    ),
                )
            } else {
                None
            },
            _ => None,
        },
    }
}

/// What decoding the text of a non-success body yields: the structured
/// response when the text is a well-formed document matching a shape, and a
/// `Json` error otherwise.
pub open spec fn error_reply_spec(body: Seq<char>, e: Error) -> bool {
    match crate::json::json_doc(body) {
        Some(j) => match response_of(j) {
            Some(rm) => e matches Error::Api(resp) && resp@ == rm,
            None => e is Json,
        },
        None => e is Json,
    }
}

/// The field a message object supplies under `primary`, or failing that under
/// `alias`, when that field is a string.
fn get_str_field(v: &serde_json::Value, primary: &str, alias: &str) -> (r: Option<String>)
    ensures
        match crate::json::json_model(*v) {
            Jv::Obj(m) => match r {
                Some(s) => str_field(m, primary@, alias@) == Some(s@),
                None => str_field(m, primary@, alias@) is None,
            },
            _ => r is None,
        },
{
    let entry = match json_get(v, primary) {
        Some(f) => Some(f),
        None => json_get(v, alias),
    };
    match entry {
        Some(f) => match json_as_str(f) {
            Some(s) => Some(s.to_owned()),
            None => None,
        },
        None => None,
    }
}

/// The optional `status` field of a message object; `Err` when present but
/// not an integer fitting a `u8`.
fn get_status_field(v: &serde_json::Value) -> (r: Result<Option<u8>, ()>)
    ensures
        match crate::json::json_model(*v) {
            Jv::Obj(m) => match r {
                Ok(o) => status_field(m) == Some(o),
                Err(_) => status_field(m) is None,
            },
            _ => true,
        },
{
    match get_opt_u64_field(v, "status") {
        Ok(None) => Ok(None),
        Ok(Some(n)) => if n <= 255 {
            Ok(Some(n as u8))
        } else {
            Err(())
        },
        Err(_) => Err(()),
    }
}

/// Decode one message object, trying the short shape before the long one.
pub fn decode_message(v: &serde_json::Value) -> (r: Option<Message>)
    ensures
        match r {
            Some(m) => message_of(crate::json::json_model(*v)) == Some(m@),
            None => message_of(crate::json::json_model(*v)) is None,
        },
{
    let message = get_str_field(v, "message", "error");
    let description = get_str_field(v, "description", "error_description");
    if let (Some(message), Some(description)) = (message, description) {
        return Some(Message::Short { message, description });
    }
    let message = match get_str_field(v, "message", "error_message") {
        Some(m) => m,
        None => {
            return None;
        },
    };
    let instance = match get_opt_str_field(v, "instance") {
        Ok(o) => o,
        Err(_) => {
            return None;
        },
    };
    let error_code = match get_opt_str_field(v, "error_code") {
        Ok(o) => o,
        Err(_) => {
            return None;
        },
    };
    let param = match get_opt_str_field(v, "param") {
        Ok(o) => o,
        Err(_) => {
            return None;
        },
    };
    let ty = match get_opt_str_field(v, "type") {
        Ok(o) => o,
        Err(_) => {
            return None;
        },
    };
    let title = match get_opt_str_field(v, "title") {
        Ok(o) => o,
        Err(_) => {
            return None;
        },
    };
    let status = match get_status_field(v) {
        Ok(o) => o,
        Err(_) => {
            return None;
        },
    };
    let detail = match get_opt_str_field(v, "detail") {
        Ok(o) => o,
        Err(_) => {
            return None;
        },
    };
    Some(Message::Long { message, instance, error_code, param, ty, title, status, detail })
}

/// Decode a whole error body value, trying a single message object before a
/// list of them.
pub fn decode_response(v: &serde_json::Value) -> (r: Option<Response>)
    ensures
        match r {
            Some(resp) => response_of(crate::json::json_model(*v)) == Some(resp@),
            None => response_of(crate::json::json_model(*v)) is None,
        },
{
    if let Some(m) = decode_message(v) {
        return Some(Response::Message(Box::new(m)));
    }
    let elems = match json_as_array(v) {
        Some(a) => a,
        None => {
            return None;
        },
    };
    let ghost s = crate::json::json_model(*v)->Arr_0;
    let mut messages: Vec<Message> = Vec::new();
    let mut i: usize = 0;
    while i < elems.len()
        invariant
            message_of(crate::json::json_model(*v)) is None,
            crate::json::json_model(*v) matches Jv::Arr(s2) && s2 == s,
            s.len() == elems@.len(),
            forall|k: int| 0 <= k < elems@.len() ==> s[k] == crate::json::json_model(elems@[k]),
            i <= elems@.len(),
            messages@.len() == i,
            forall|k: int| 0 <= k < i ==> message_of(s[k]) == Some(messages@[k]@),
        decreases elems@.len() - i,
    {
        match decode_message(&elems[i]) {
            Some(m) => {
                messages.push(m);
            },
            None => {
                proof {
                    assert(message_of(s[i as int]) is None);
                    assert(!(forall|k: int|
                        0 <= k < s.len() ==> message_of(s[k]) is Some)) by {
                        assert(0 <= i < s.len() && !(message_of(s[i as int]) is Some));
                    }
                }
                return None;
            },
        }
        i += 1;
    }
    proof {
        assert_seqs_equal!(
            messages.deep_view(),
            Seq::new(s.len(), |k: int| message_of(s[k])->0)
        );
    }
    Some(Response::Messages(messages))
}

/// Decode the body of a non-success response into the error it stands for.
pub fn decode_error_body(body: &str) -> (e: Error)
    ensures
        error_reply_spec(body@, e),
{
    let v = match parse_json(body) {
        Ok(v) => v,
        Err(msg) => {
            return Error::Json(msg);
        },
    };
    match decode_response(&v) {
        Some(resp) => Error::Api(resp),
        None => Error::Json("the error body matches none of the known shapes".to_owned()),
    }
}

} // verus!
