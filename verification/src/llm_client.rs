//! The upstream call: what is sent, and how the answer's status and content
//! type are judged. The transport itself belongs to the caller.

use crate::errors::{ErrorKind, ReasonerError};
use crate::models::request::{ChatCompletionCreate, RequestView};
use serde_json::Value;
use std::collections::HashMap;
use vstd::prelude::*;
use vstd::string::StringExecFns;

verus! {

/// The content type that a call expects of its answer.
#[derive(Debug, Clone, Copy, PartialEq, Eq, Structural)]
pub enum ContentKind {
    /// `application/json`: one completion.
    Json,
    /// `text/event-stream`: a stream of chunks.
    EventStream,
}

/// The essence of a content type: type and subtype, without parameters.
pub open spec fn essence_of(kind: ContentKind) -> Seq<char> {
    match kind {
        ContentKind::Json => "application/json"@,
        ContentKind::EventStream => "text/event-stream"@,
    }
}

/// What the `mime` crate's parser makes of a header value: the essence and
/// the rendering of the media type, or the rendering of its parse error.
pub uninterp spec fn mime_parts(header: Seq<char>) -> Result<(Seq<char>, Seq<char>), Seq<char>>;

/// Parses a `Content-Type` value with `mime::Mime`'s `FromStr`. Nothing is
/// claimed of the outcome but that it is the one that the parser gives for
/// this text: for a media type its `essence_str` and its `Display` text, for
/// a failure the `Display` text of the error.
#[verifier::external_body]
fn parse_content_type(header: &str) -> (r: Result<(String, String), String>)
    ensures
        match r {
            Ok(p) => mime_parts(header@) == Ok::<(Seq<char>, Seq<char>), Seq<char>>((p.0@, p.1@)),
            Err(e) => mime_parts(header@) == Err::<(Seq<char>, Seq<char>), Seq<char>>(e@),
        },
{
    match header.parse::<mime::Mime>() {
        Ok(m) => Ok((m.essence_str().to_string(), m.to_string())),
        Err(e) => Err(e.to_string()),
    }
}

/// `Extend::extend` of std's `HashMap`: every entry of `over` is entered
/// into `base`, in place of the entry that holds its key where there is one.
#[verifier::external_body]
fn extend_fields(base: &mut HashMap<String, Value>, over: HashMap<String, Value>)
    ensures
        final(base)@ == old(base)@.union_prefer_right(over@),
{
    base.extend(over);
}

/// The status is in the success range.
pub open spec fn status_is_success(code: u16) -> bool {
    200 <= code < 300
}

/// The words of the error for an answer outside the success range.
pub open spec fn status_message(status: Seq<char>, text: Seq<char>) -> Seq<char> {
    "error: status "@ + status + ", text "@ + text
}

/// The words of the error for an answer of another content type.
pub open spec fn content_type_message(found: Seq<char>, expected: ContentKind) -> Seq<char> {
    "content-type: "@ + found + ", expected: "@ + essence_of(expected)
}

/// The failure, if any, that parsed content-type parts amount to: the parse
/// error itself, or a mismatch of essences.
pub open spec fn content_type_failure(
    parts: Result<(Seq<char>, Seq<char>), Seq<char>>,
    expected: ContentKind,
) -> Option<Seq<char>> {
    match parts {
        Err(e) => Some(e),
        Ok(p) => if p.0 == essence_of(expected) {
            None
        } else {
            Some(content_type_message(p.1, expected))
        },
    }
}

/// The view of parsed content-type parts.
pub open spec fn parts_view(parts: Result<(String, String), String>) -> Result<
    (Seq<char>, Seq<char>),
    Seq<char>,
> {
    match parts {
        Ok(p) => Ok((p.0@, p.1@)),
        Err(e) => Err(e@),
    }
}

/// The essence of a content type, as text.
pub fn essence_text(kind: ContentKind) -> (s: String)
    ensures
        s@ == essence_of(kind),
{
    match kind {
        ContentKind::Json => String::from_str("application/json"),
        ContentKind::EventStream => String::from_str("text/event-stream"),
    }
}

/// Judges parsed content-type parts against what the call expected.
pub fn content_type_verdict(parts: Result<(String, String), String>, expected: ContentKind) -> (r:
    Result<(), ReasonerError>)
    ensures
        r is Ok <==> content_type_failure(parts_view(parts), expected) is None,
        r is Err ==> r->Err_0.kind() == ErrorKind::Parse && Some(r->Err_0.message())
            == content_type_failure(parts_view(parts), expected),
{
    match parts {
        Err(e) => Err(ReasonerError::ParseError(e)),
        Ok(p) => {
            let wanted = essence_text(expected);
            if p.0 == wanted {
                Ok(())
            } else {
                let mut text = String::from_str("content-type: ");
                text.append(p.1.as_str());
                text.append(", expected: ");
                text.append(wanted.as_str());
                Err(ReasonerError::ParseError(text))
            }
        },
    }
}

/// One call to the upstream, ready to be sent.
#[derive(Debug, Clone)]
pub struct UpstreamCall {
    /// Where the body is posted.
    pub url: String,
    /// The value of the `Authorization` header.
    pub authorization: String,
    pub body: ChatCompletionCreate,
}

/// The client of one route.
#[derive(Debug, Clone)]
pub struct LLMClient {
    pub base_url: String,
    pub api_key: String,
    pub extra_body: Option<HashMap<String, Value>>,
}

/// The extra fields of a call: those of the request with those of the
/// route laid over them.
pub open spec fn merged_extra(
    request: Map<String, Value>,
    route: Option<HashMap<String, Value>>,
) -> Map<String, Value> {
    match route {
        Some(m) => request.union_prefer_right(m@),
        None => request,
    }
}

impl LLMClient {
    /// A client for the upstream at `base_url`.
    pub fn new(base_url: &str, api_key: &str, extra_body: &Option<HashMap<String, Value>>) -> (c:
        LLMClient)
        ensures
            c.base_url@ == base_url@,
            c.api_key@ == api_key@,
            match *extra_body {
                Some(m) => c.extra_body is Some && (c.extra_body->0)@ == m@,
                None => c.extra_body is None,
            },
    {
        let extra = match extra_body {
            Some(m) => Some(m.clone()),
            None => None,
        };
        LLMClient {
            base_url: String::from_str(base_url),
            api_key: String::from_str(api_key),
            extra_body: extra,
        }
    }

    /// Makes the call for `request`: posted to `/chat/completions` under
    /// the base URL, with the key as bearer token, and with the extra fields
    /// of the route merged into those of the request. Where both name a
    /// field, the route's value stands.
    pub fn prepare(&self, request: ChatCompletionCreate) -> (call: UpstreamCall)
        ensures
            call.url@ == self.base_url@ + "/chat/completions"@,
            call.authorization@ == "Bearer "@ + self.api_key@,
            call.body@ == (RequestView {
                extra: merged_extra(request@.extra, self.extra_body),
                ..request@
            }),
    {
        let mut body = request;
        match &self.extra_body {
            Some(m) => {
                extend_fields(&mut body.extra, m.clone());
            },
            None => {},
        }
        let mut url = self.base_url.clone();
        url.append("/chat/completions");
        let mut authorization = String::from_str("Bearer ");
        authorization.append(self.api_key.as_str());
        UpstreamCall { url, authorization, body }
    }

    /// Whether the status is in the success range.
    pub fn is_success(code: u16) -> (b: bool)
        ensures
            b == status_is_success(code),
    {
        200 <= code && code < 300
    }

    /// The error for an answer outside the success range: it carries the
    /// status as the transport renders it and the text of the body.
    pub fn status_error(status: &str, text: &str) -> (e: ReasonerError)
        ensures
            e.kind() == ErrorKind::Api,
            e.message() == status_message(status@, text@),
    {
        let mut message = String::from_str("error: status ");
        message.append(status);
        message.append(", text ");
        message.append(text);
        ReasonerError::ApiError(message)
    }

    /// Judges the `Content-Type` of an answer: accepted where its essence is
    /// the expected one, a parse error where it is another or the value is
    /// no media type.
    pub fn check_content_type(header: &str, expected: ContentKind) -> (r: Result<
        (),
        ReasonerError,
    >)
        ensures
            r is Ok <==> content_type_failure(mime_parts(header@), expected) is None,
            r is Err ==> r->Err_0.kind() == ErrorKind::Parse && Some(r->Err_0.message())
                == content_type_failure(mime_parts(header@), expected),
    {
        content_type_verdict(parse_content_type(header), expected)
    }
}

} // verus!
