//! Request envelope decoding and dispatch.
//!
//! An inbound algorithm request is a JSON document shaped as
//! `{ "request_type": "list" | "execution", "content": { ... } }`.
//! Decoding is two-staged and fails closed at each stage: first the envelope
//! is classified by its `request_type` discriminant, then the `content` is
//! decoded against the shape that classification requires. A structurally
//! invalid request always yields an `Error` response with a stage-specific
//! diagnostic; it never yields a partially filled request.

use vstd::prelude::*;

use crate::json;
use crate::json::json_content_field_null;
use crate::json::json_content_field_present;
use crate::json::json_content_field_str;
use crate::json::json_content_is_object;
use crate::json::json_document_accepted;
use crate::json::json_envelope_kind;
use crate::json::json_has_content;
use crate::json::json_name_list;
use crate::registry::Algorithm;
use crate::registry::AlgorithmType;
use crate::text::str_eq;

verus! {

/// Status of a handled request, paired with a message in every response. On
/// the wire the two variants appear as `Ok` and `Error`.
#[derive(Clone, Copy, Debug, PartialEq, Eq, Structural)]
pub enum AlgorithmExecutionResponse {
    Success,
    Failure,
}

/// The envelope discriminant: what kind of request the content holds.
#[derive(Clone, Copy, Debug, PartialEq, Eq, Structural)]
pub enum AlgorithmRequestType {
    List,
    Execution,
}

/// Which algorithms a list request selects. A list request without a
/// `list_type` selects them all.
#[derive(Clone, Copy, Debug, PartialEq, Eq, Structural)]
pub enum AlgorithmListType {
    All,
    Graph,
    Approximation,
}

/// A decoded list request.
pub struct AlgorithmListRequest {
    pub list_type: Option<AlgorithmListType>,
}

/// A decoded execution request: the registry identifier as it appeared on the
/// wire, and the algorithm-specific payload, opaque to the dispatcher.
pub struct AlgorithmExecutionRequest {
    pub algorithm: String,
    pub data: String,
}

/// A classified envelope: the discriminant, and the still-undecoded content.
pub struct RequestEnvelope {
    pub kind: AlgorithmRequestType,
    pub content: json::ContentDocument,
}

/// The request kind a `request_type` string names, if any.
pub open spec fn spec_request_kind(s: Seq<char>) -> Option<AlgorithmRequestType> {
    if s == "list"@ {
        Some(AlgorithmRequestType::List)
    } else if s == "execution"@ {
        Some(AlgorithmRequestType::Execution)
    } else {
        None
    }
}

/// The list selector a `list_type` string names, if any.
pub open spec fn spec_list_type(s: Seq<char>) -> Option<AlgorithmListType> {
    if s == "all"@ {
        Some(AlgorithmListType::All)
    } else if s == "graph"@ {
        Some(AlgorithmListType::Graph)
    } else if s == "approximation"@ {
        Some(AlgorithmListType::Approximation)
    } else {
        None
    }
}

/// Classify the envelope discriminant.
pub fn classify_request_kind(s: &str) -> (r: Option<AlgorithmRequestType>)
    ensures
        r == spec_request_kind(s@),
{
    if str_eq(s, "list") {
        Some(AlgorithmRequestType::List)
    } else if str_eq(s, "execution") {
        Some(AlgorithmRequestType::Execution)
    } else {
        None
    }
}

/// Classify a list request's selector string.
pub fn classify_list_type(s: &str) -> (r: Option<AlgorithmListType>)
    ensures
        r == spec_list_type(s@),
{
    if str_eq(s, "all") {
        Some(AlgorithmListType::All)
    } else if str_eq(s, "graph") {
        Some(AlgorithmListType::Graph)
    } else if str_eq(s, "approximation") {
        Some(AlgorithmListType::Approximation)
    } else {
        None
    }
}

/// The algorithms a selector picks, in registration order.
pub open spec fn spec_selected(sel: AlgorithmListType) -> Seq<Algorithm> {
    match sel {
        AlgorithmListType::All => Algorithm::spec_values(),
        AlgorithmListType::Graph => Algorithm::spec_filter(AlgorithmType::Graph),
        AlgorithmListType::Approximation => Algorithm::spec_filter(AlgorithmType::Approximation),
    }
}

/// The display names a selector picks, in registration order.
pub open spec fn spec_selected_names(sel: AlgorithmListType) -> Seq<Seq<char>> {
    spec_selected(sel).map_values(|a: Algorithm| a.spec_name())
}

/// The selector a list request means: absence of `list_type` means all.
pub open spec fn spec_effective_list_type(list_type: Option<AlgorithmListType>) -> AlgorithmListType {
    match list_type {
        None => AlgorithmListType::All,
        Some(sel) => sel,
    }
}

/// The request kind the document's `request_type` field classifies to, if
/// the field is a string naming one.
pub open spec fn spec_envelope_kind(s: Seq<char>) -> Option<AlgorithmRequestType> {
    match json_envelope_kind(s) {
        Some(k) => spec_request_kind(k),
        None => None,
    }
}

/// Whether a request body passes the envelope stage: it is accepted JSON,
/// its `request_type` names a kind, and it holds a `content` field.
pub open spec fn spec_envelope_ok(s: Seq<char>) -> bool {
    &&& json_document_accepted(s)
    &&& spec_envelope_kind(s) is Some
    &&& json_has_content(s)
}

/// What the list stage decodes the document's content to: `None` when the
/// content does not match the list shape, else the selector it carries
/// (`Some(None)` for an absent or null `list_type`, meaning all).
pub open spec fn spec_list_decode(s: Seq<char>) -> Option<Option<AlgorithmListType>> {
    if !json_content_is_object(s) {
        None
    } else if !json_content_field_present(s, "list_type"@) {
        Some(None)
    } else if json_content_field_null(s, "list_type"@) {
        Some(None)
    } else {
        match json_content_field_str(s, "list_type"@) {
            Some(v) => (match spec_list_type(v) {
                Some(sel) => Some(Some(sel)),
                None => None,
            }),
            None => None,
        }
    }
}

/// What the execution stage decodes the document's content to: `None` when
/// the content does not match the execution shape, else its `algorithm` and
/// `data` strings.
pub open spec fn spec_execution_decode(s: Seq<char>) -> Option<(Seq<char>, Seq<char>)> {
    if !json_content_is_object(s) {
        None
    } else {
        match (json_content_field_str(s, "algorithm"@), json_content_field_str(s, "data"@)) {
            (Some(a), Some(d)) => Some((a, d)),
            _ => None,
        }
    }
}

/// The display names of the algorithms a selector picks.
pub fn selected_names(sel: AlgorithmListType) -> (r: Vec<String>)
    ensures
        r.deep_view() == spec_selected_names(sel),
{
    let algs = match sel {
        AlgorithmListType::All => Algorithm::all(),
        AlgorithmListType::Graph => Algorithm::filter(AlgorithmType::Graph),
        AlgorithmListType::Approximation => Algorithm::filter(AlgorithmType::Approximation),
    };
    let mut names: Vec<String> = Vec::new();
    let mut i: usize = 0;
    while i < algs.len()
        invariant
            i <= algs@.len(),
            algs@ == spec_selected(sel),
            names@.len() == i,
            names.deep_view() == spec_selected_names(sel).take(i as int),
        decreases algs@.len() - i,
    {
        let a = algs[i];
        names.push(String::from_str(a.name()));
        proof {
            assert(names.deep_view() =~= spec_selected_names(sel).take(i as int + 1));
        }
        i = i + 1;
    }
    proof {
        assert(spec_selected_names(sel).take(algs@.len() as int) =~= spec_selected_names(sel));
    }
    names
}

/// The message a registered algorithm's handler returns.
pub open spec fn spec_handler_message(a: Algorithm) -> Seq<char> {
    "algorithm execution request handler "@ + a.spec_name()
}

/// The diagnostic for an execution request naming no registered algorithm.
pub open spec fn spec_unknown_algorithm_message(identifier: Seq<char>) -> Seq<char> {
    "Unknown algorithm: "@ + identifier
}

/// The prefix of every envelope-stage diagnostic.
pub open spec fn spec_envelope_error_prefix() -> Seq<char> {
    "Error parsing toplevel request: "@
}

/// Whether a message is an envelope-stage diagnostic.
pub open spec fn spec_is_envelope_error(m: Seq<char>) -> bool {
    exists|detail: Seq<char>| m == spec_envelope_error_prefix() + detail
}

/// The diagnostic for list content that does not match the list shape.
pub open spec fn spec_list_content_error() -> Seq<char> {
    "Error parsing list request: content does not match the list shape"@
}

/// The diagnostic for execution content that does not match the execution
/// shape.
pub open spec fn spec_execution_content_error() -> Seq<char> {
    "Error parsing execution request: content does not match the execution shape"@
}

/// The message standing in for a listing whose encoding the serializer
/// refused.
pub open spec fn spec_list_encoding_fallback() -> Seq<char> {
    "algorithm list json conversion failed"@
}

/// The message of a successful list response for a selector.
pub open spec fn spec_list_message(sel: AlgorithmListType) -> Seq<char> {
    match json_name_list(spec_selected_names(sel)) {
        Some(m) => m,
        None => spec_list_encoding_fallback(),
    }
}

/// Whether a message is one a `Failure` response may carry: a stage
/// diagnostic or an unknown-algorithm diagnostic.
pub open spec fn spec_is_failure_message(m: Seq<char>) -> bool {
    ||| spec_is_envelope_error(m)
    ||| m == spec_list_content_error()
    ||| m == spec_execution_content_error()
    ||| (exists|identifier: Seq<char>| m == spec_unknown_algorithm_message(identifier))
}

/// Whether a message is one a `Success` response may carry: a listing or a
/// handler message.
pub open spec fn spec_is_success_message(m: Seq<char>) -> bool {
    ||| (exists|sel: AlgorithmListType| m == spec_list_message(sel))
    ||| (exists|a: Algorithm| m == spec_handler_message(a))
}

fn envelope_error(detail: &str) -> (r: String)
    ensures
        r@ == spec_envelope_error_prefix() + detail@,
        spec_is_envelope_error(r@),
{
    let r = String::from_str("Error parsing toplevel request: ").concat(detail);
    proof {
        let d = detail@;
        assert(r@ == spec_envelope_error_prefix() + d);
    }
    r
}

/// Serve a list request: the display names of the selected algorithms,
/// JSON-encoded, in registration order. Absence of a selector means all.
pub fn handle_list_request(request: &AlgorithmListRequest) -> (r: (
    AlgorithmExecutionResponse,
    String,
))
    ensures
        r.0 is Success,
        r.1@ == spec_list_message(spec_effective_list_type(request.list_type)),
{
    let sel = match request.list_type {
        None => AlgorithmListType::All,
        Some(sel) => sel,
    };
    let names = selected_names(sel);
    match json::encode_name_list(&names) {
        Ok(encoded) => (AlgorithmExecutionResponse::Success, encoded),
        Err(_) => (
            AlgorithmExecutionResponse::Success,
            String::from_str("algorithm list json conversion failed"),
        ),
    }
}

/// Serve an execution request: look the identifier up in the registry; if it
/// is absent, fail with an unknown-algorithm diagnostic and invoke no
/// handler; if it is present, hand the payload to the bound handler and
/// return its message.
pub fn handle_execution_request(request: &AlgorithmExecutionRequest) -> (r: (
    AlgorithmExecutionResponse,
    String,
))
    ensures
        (match Algorithm::spec_from_identifier(request.algorithm@) {
            Some(a) => r.0 is Success && r.1@ == spec_handler_message(a),
            None => r.0 is Failure && r.1@ == spec_unknown_algorithm_message(request.algorithm@),
        }),
{
    match Algorithm::from_identifier(request.algorithm.as_str()) {
        Some(a) => (
            AlgorithmExecutionResponse::Success,
            String::from_str("algorithm execution request handler ").concat(a.name()),
        ),
        None => (
            AlgorithmExecutionResponse::Failure,
            String::from_str("Unknown algorithm: ").concat(request.algorithm.as_str()),
        ),
    }
}

/// Stage one of the decode: parse the body and classify the envelope by its
/// `request_type`, leaving the content undecoded. Fails closed, and exactly
/// when the envelope stage must: a malformed body, a missing or non-string
/// or unknown discriminant, or a missing content field yield an
/// envelope-stage diagnostic, and nothing else does.
pub fn decode_envelope(body: &str) -> (r: Result<RequestEnvelope, String>)
    ensures
        r is Ok <==> spec_envelope_ok(body@),
        r matches Ok(env) ==> Some(env.kind) == spec_envelope_kind(body@) && env.content.src()
            == body@,
        r matches Err(m) ==> spec_is_envelope_error(m@),
{
    let doc = match json::parse_document(body) {
        Ok(doc) => doc,
        Err(e) => {
            return Err(envelope_error(e.as_str()));
        },
    };
    let kind_str = match json::envelope_kind_field(&doc) {
        Some(s) => s,
        None => {
            return Err(envelope_error("missing or invalid request_type"));
        },
    };
    let kind = match classify_request_kind(kind_str.as_str()) {
        Some(kind) => kind,
        None => {
            return Err(envelope_error("unknown request_type"));
        },
    };
    let content = match json::content_of(&doc) {
        Some(c) => c,
        None => {
            return Err(envelope_error("missing content"));
        },
    };
    Ok(RequestEnvelope { kind, content })
}

/// Stage two of the decode for a list envelope: the content must be an
/// object; its `list_type`, when present and not null, must name a selector.
/// Succeeds exactly when the content matches that shape, and returns exactly
/// the selector the document carries.
pub fn decode_list_content(content: &json::ContentDocument) -> (r: Result<
    AlgorithmListRequest,
    String,
>)
    ensures
        r is Ok <==> spec_list_decode(content.src()) is Some,
        r matches Ok(req) ==> spec_list_decode(content.src()) == Some(req.list_type),
        r matches Err(m) ==> m@ == spec_list_content_error(),
{
    if !json::content_is_object(content) {
        return Err(list_content_error());
    }
    if !json::content_field_present(content, "list_type") {
        return Ok(AlgorithmListRequest { list_type: None });
    }
    if json::content_field_null(content, "list_type") {
        return Ok(AlgorithmListRequest { list_type: None });
    }
    match json::content_field_str(content, "list_type") {
        None => Err(list_content_error()),
        Some(s) => {
            match classify_list_type(s.as_str()) {
                Some(sel) => Ok(AlgorithmListRequest { list_type: Some(sel) }),
                None => Err(list_content_error()),
            }
        },
    }
}

fn list_content_error() -> (r: String)
    ensures
        r@ == spec_list_content_error(),
{
    String::from_str("Error parsing list request: content does not match the list shape")
}

/// Stage two of the decode for an execution envelope: the content must be an
/// object holding an `algorithm` string and a `data` string. Succeeds
/// exactly when the content matches that shape, and returns exactly the two
/// strings the document carries. The identifier is not looked up here; that
/// is the dispatcher's decision.
pub fn decode_execution_content(content: &json::ContentDocument) -> (r: Result<
    AlgorithmExecutionRequest,
    String,
>)
    ensures
        r is Ok <==> spec_execution_decode(content.src()) is Some,
        r matches Ok(req) ==> spec_execution_decode(content.src()) == Some(
            (req.algorithm@, req.data@),
        ),
        r matches Err(m) ==> m@ == spec_execution_content_error(),
{
    if !json::content_is_object(content) {
        return Err(execution_content_error());
    }
    let algorithm = match json::content_field_str(content, "algorithm") {
        None => {
            return Err(execution_content_error());
        },
        Some(s) => s,
    };
    let data = match json::content_field_str(content, "data") {
        None => {
            return Err(execution_content_error());
        },
        Some(s) => s,
    };
    Ok(AlgorithmExecutionRequest { algorithm, data })
}

fn execution_content_error() -> (r: String)
    ensures
        r@ == spec_execution_content_error(),
{
    String::from_str("Error parsing execution request: content does not match the execution shape")
}

/// The response a request body must receive, as a function of the body's
/// named JSON facts alone: an envelope failure where the envelope stage
/// rejects it; else, by the classified kind, the exact listing or content
/// diagnostic, the exact handler message, or the exact unknown-algorithm
/// diagnostic.
pub open spec fn spec_expected_response(
    body: Seq<char>,
    status: AlgorithmExecutionResponse,
    message: Seq<char>,
) -> bool {
    if !spec_envelope_ok(body) {
        status is Failure && spec_is_envelope_error(message)
    } else {
        match spec_envelope_kind(body) {
            Some(AlgorithmRequestType::List) => (match spec_list_decode(body) {
                Some(list_type) => status is Success && message == spec_list_message(
                    spec_effective_list_type(list_type),
                ),
                None => status is Failure && message == spec_list_content_error(),
            }),
            Some(AlgorithmRequestType::Execution) => (match spec_execution_decode(body) {
                Some((identifier, _data)) => (match Algorithm::spec_from_identifier(identifier) {
                    Some(a) => status is Success && message == spec_handler_message(a),
                    None => status is Failure && message == spec_unknown_algorithm_message(
                        identifier,
                    ),
                }),
                None => status is Failure && message == spec_execution_content_error(),
            }),
            None => true,
        }
    }
}

/// Handle one inbound algorithm request body, decoding in two stages and
/// dispatching the classified request. Every outcome is a response pair; no
/// input raises a fatal condition. The response is exactly the one the
/// body's named JSON facts call for — `Error` if and only if a decode stage
/// rejects the body or the identifier is unregistered, with that stage's
/// diagnostic, and `Ok` with the served message in every other case — so the
/// result is a function of the body alone. A `Success` carries a listing or
/// a handler message and nothing else; a `Failure` carries a stage or
/// unknown-algorithm diagnostic and nothing else.
pub fn handle_algorithm_request(request_body: &str) -> (r: (
    AlgorithmExecutionResponse,
    String,
))
    ensures
        spec_expected_response(request_body@, r.0, r.1@),
        !json_document_accepted(request_body@) ==> r.0 is Failure && spec_is_envelope_error(r.1@),
        r.0 is Success ==> spec_is_success_message(r.1@),
        r.0 is Failure ==> spec_is_failure_message(r.1@),
{
    let envelope = match decode_envelope(request_body) {
        Ok(envelope) => envelope,
        Err(m) => {
            return (AlgorithmExecutionResponse::Failure, m);
        },
    };
    match envelope.kind {
        AlgorithmRequestType::List => {
            match decode_list_content(&envelope.content) {
                Ok(request) => {
                    let r = handle_list_request(&request);
                    proof {
                        let sel = spec_effective_list_type(request.list_type);
                        assert(r.1@ == spec_list_message(sel));
                    }
                    r
                },
                Err(m) => (AlgorithmExecutionResponse::Failure, m),
            }
        },
        AlgorithmRequestType::Execution => {
            match decode_execution_content(&envelope.content) {
                Ok(request) => {
                    let r = handle_execution_request(&request);
                    proof {
                        if Algorithm::spec_from_identifier(request.algorithm@) is None {
                            let identifier = request.algorithm@;
                            assert(r.1@ == spec_unknown_algorithm_message(identifier));
                        }
                    }
                    r
                },
                Err(m) => (AlgorithmExecutionResponse::Failure, m),
            }
        },
    }
}

} // verus!
