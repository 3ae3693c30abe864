use crate::render::{pairs_view, seqs_view, TemplateViolation};
use vstd::prelude::*;

verus! {

/// The outcome shape a named operation expects of a success response.
#[derive(Clone, Copy, PartialEq, Eq, Structural, Debug)]
pub enum Expected {
    /// The operation succeeded; the body carries nothing meaningful.
    ContentOnly,
    /// One typed value.
    Single,
    /// A page of items plus an optional next-page cursor.
    Collection,
    /// A page of items plus an optional change-tracking cursor.
    Delta,
}

/// A success status: the service accepted the operation.
pub open spec fn is_success(status: u16) -> bool {
    200 <= status < 300
}

/// What decoding a body as JSON and re-serializing it canonically
/// yields; a function of the bytes alone, `None` when the body is not
/// well-formed JSON.
pub uninterp spec fn json_canon_of(body: Seq<u8>) -> Option<Seq<u8>>;

/// The `error.code` and `error.message` fields of a Graph-style error
/// envelope; a function of the bytes alone, `None` when the body does
/// not carry such an envelope.
pub uninterp spec fn error_envelope_of(body: Seq<u8>) -> Option<(Seq<char>, Seq<char>)>;

/// The `value` items (each re-serialized canonically) and the
/// `@odata.nextLink` / `@odata.deltaLink` cursors of a collection
/// envelope; a function of the bytes alone, `None` when the body is
/// not such an envelope.
pub uninterp spec fn collection_of(body: Seq<u8>) -> Option<
    (Seq<Seq<u8>>, Option<Seq<char>>, Option<Seq<char>>),
>;

/// View of an optional cursor string.
pub open spec fn opt_str_view(o: Option<String>) -> Option<Seq<char>> {
    match o {
        None => None,
        Some(s) => Some(s@),
    }
}

/// Relies on serde_json::from_slice::<Value> and Value's Display
/// implementation: decodes the body as JSON and re-serializes it
/// canonically.
#[verifier::external_body]
pub(crate) fn parse_json_canon(body: &Vec<u8>) -> (r: Option<Vec<u8>>)
    ensures
        match r {
            None => json_canon_of(body@) is None,
            Some(v) => json_canon_of(body@) == Some(v@),
        },
{
    match serde_json::from_slice::<serde_json::Value>(body) {
        Ok(v) => Some(v.to_string().into_bytes()),
        Err(_) => None,
    }
}

/// Relies on serde_json::from_slice::<Value>, Value::get and
/// Value::as_str: reads `error.code` and `error.message` of the
/// Graph-style error envelope.
#[verifier::external_body]
fn parse_error_envelope(body: &Vec<u8>) -> (r: Option<(String, String)>)
    ensures
        match r {
            None => error_envelope_of(body@) is None,
            Some(cm) => error_envelope_of(body@) == Some((cm.0@, cm.1@)),
        },
{
    let v: serde_json::Value = serde_json::from_slice(body).ok()?;
    let e = v.get("error")?;
    let code = e.get("code")?.as_str()?;
    let message = e.get("message")?.as_str()?;
    Some((code.to_owned(), message.to_owned()))
}

/// Relies on serde_json::from_slice::<Value>, Value::get,
/// Value::as_array, Value::as_str and Value's Display implementation:
/// reads the `value` items of a collection envelope (re-serializing
/// each canonically) and the two odata cursors.
#[verifier::external_body]
fn parse_collection(body: &Vec<u8>) -> (r: Option<(Vec<Vec<u8>>, Option<String>, Option<String>)>)
    ensures
        match r {
            None => collection_of(body@) is None,
            Some(c) => collection_of(body@) == Some(
                (seqs_view(c.0), opt_str_view(c.1), opt_str_view(c.2)),
            ),
        },
{
    let v: serde_json::Value = serde_json::from_slice(body).ok()?;
    let arr = v.get("value")?.as_array()?;
    let items: Vec<Vec<u8>> = arr.iter().map(|x| x.to_string().into_bytes()).collect();
    let next = v.get("@odata.nextLink").and_then(|x| x.as_str()).map(|s| s.to_owned());
    let delta = v.get("@odata.deltaLink").and_then(|x| x.as_str()).map(|s| s.to_owned());
    Some((items, next, delta))
}

/// The cursor of a delta collection: either more pages of this delta
/// remain, or the delta is caught up at a change-tracking checkpoint.
#[derive(Debug)]
pub enum DeltaCursor {
    /// The `@odata.nextLink` cursor: more pages of this delta.
    More(String),
    /// The `@odata.deltaLink` cursor: this delta is caught up.
    Done(String),
}

/// Mathematical model of a delta cursor.
pub enum DeltaCursorModel {
    More(Seq<char>),
    Done(Seq<char>),
}

impl View for DeltaCursor {
    type V = DeltaCursorModel;

    open spec fn view(&self) -> DeltaCursorModel {
        match self {
            DeltaCursor::More(s) => DeltaCursorModel::More(s@),
            DeltaCursor::Done(s) => DeltaCursorModel::Done(s@),
        }
    }
}

/// View of an optional delta cursor.
pub open spec fn opt_cursor_view(o: Option<DeltaCursor>) -> Option<DeltaCursorModel> {
    match o {
        None => None,
        Some(c) => Some(c@),
    }
}

/// A typed success outcome of one dispatched operation.
#[derive(Debug)]
pub enum Outcome {
    /// Success with no meaningful body; only the status and the
    /// response headers are exposed.
    Content { status: u16, headers: Vec<(Vec<u8>, Vec<u8>)> },
    /// One value, re-serialized canonically.
    Single { body: Vec<u8> },
    /// A page of items plus a preserved, unresolved next-page cursor.
    Collection { items: Vec<Vec<u8>>, next: Option<String> },
    /// A page of items plus the delta cursor, if the service sent one.
    Delta { items: Vec<Vec<u8>>, cursor: Option<DeltaCursor> },
}

/// Mathematical model of an outcome.
pub enum OutcomeModel {
    Content { status: u16, headers: Seq<(Seq<u8>, Seq<u8>)> },
    Single { body: Seq<u8> },
    Collection { items: Seq<Seq<u8>>, next: Option<Seq<char>> },
    Delta { items: Seq<Seq<u8>>, cursor: Option<DeltaCursorModel> },
}

impl View for Outcome {
    type V = OutcomeModel;

    open spec fn view(&self) -> OutcomeModel {
        match self {
            Outcome::Content { status, headers } => OutcomeModel::Content {
                status: *status,
                headers: pairs_view(*headers),
            },
            Outcome::Single { body } => OutcomeModel::Single { body: body@ },
            Outcome::Collection { items, next } => OutcomeModel::Collection {
                items: seqs_view(*items),
                next: opt_str_view(*next),
            },
            Outcome::Delta { items, cursor } => OutcomeModel::Delta {
                items: seqs_view(*items),
                cursor: opt_cursor_view(*cursor),
            },
        }
    }
}

/// Every failure an operation can surface, as one tagged type. The
/// first two are local programming-contract errors caught before any
/// network call; the rest describe what came back from the wire.
#[derive(Debug)]
pub enum Failure {
    /// A placeholder or variable mismatch while rendering the path.
    Template(TemplateViolation),
    /// A body or batch entry failed to encode; nothing was dispatched.
    Serialization,
    /// The transport itself failed: connection, timeout, TLS.
    Transport(String),
    /// A well-formed error envelope from the service.
    Api { code: String, message: String },
    /// A non-success status whose body is not an error envelope.
    Unreadable { status: u16, body: Vec<u8> },
    /// A success status whose body does not match the expected shape.
    Decode,
}

/// Mathematical model of a failure.
pub enum FailureModel {
    Template(TemplateViolation),
    Serialization,
    Transport(Seq<char>),
    Api { code: Seq<char>, message: Seq<char> },
    Unreadable { status: u16, body: Seq<u8> },
    Decode,
}

impl View for Failure {
    type V = FailureModel;

    open spec fn view(&self) -> FailureModel {
        match self {
            Failure::Template(t) => FailureModel::Template(*t),
            Failure::Serialization => FailureModel::Serialization,
            Failure::Transport(m) => FailureModel::Transport(m@),
            Failure::Api { code, message } => FailureModel::Api {
                code: code@,
                message: message@,
            },
            Failure::Unreadable { status, body } => FailureModel::Unreadable {
                status: *status,
                body: body@,
            },
            Failure::Decode => FailureModel::Decode,
        }
    }
}

/// What the conversion pipeline makes of a raw response: the rules of
/// the pipeline, stated over the decoded views of the body.
pub open spec fn convert_model(
    status: u16,
    headers: Seq<(Seq<u8>, Seq<u8>)>,
    body: Seq<u8>,
    expected: Expected,
) -> Result<OutcomeModel, FailureModel> {
    if !is_success(status) {
        match error_envelope_of(body) {
            Some(cm) => Err(FailureModel::Api { code: cm.0, message: cm.1 }),
            None => Err(FailureModel::Unreadable { status, body }),
        }
    } else {
        match expected {
            Expected::ContentOnly => Ok(OutcomeModel::Content { status, headers }),
            Expected::Single => match json_canon_of(body) {
                Some(t) => Ok(OutcomeModel::Single { body: t }),
                None => Err(FailureModel::Decode),
            },
            Expected::Collection => match collection_of(body) {
                Some(env) => Ok(OutcomeModel::Collection { items: env.0, next: env.1 }),
                None => Err(FailureModel::Decode),
            },
            Expected::Delta => match collection_of(body) {
                Some(env) => Ok(OutcomeModel::Delta {
                    items: env.0,
                    cursor: match env.2 {
                        Some(d) => Some(DeltaCursorModel::Done(d)),
                        None => match env.1 {
                            Some(n) => Some(DeltaCursorModel::More(n)),
                            None => None,
                        },
                    },
                }),
                None => Err(FailureModel::Decode),
            },
        }
    }
}

/// Converts one raw response (status, headers, body bytes) into the
/// typed outcome that `expected` calls for. The result is pinned to
/// [`convert_model`] on every input.
pub fn convert(
    status: u16,
    headers: Vec<(Vec<u8>, Vec<u8>)>,
    body: &Vec<u8>,
    expected: Expected,
) -> (r: Result<Outcome, Failure>)
    ensures
        match r {
            Ok(o) => convert_model(status, pairs_view(headers), body@, expected) == Ok::<
                OutcomeModel,
                FailureModel,
            >(o@),
            Err(f) => convert_model(status, pairs_view(headers), body@, expected) == Err::<
                OutcomeModel,
                FailureModel,
            >(f@),
        },
{
    if !(200 <= status && status < 300) {
        match parse_error_envelope(body) {
            Some(cm) => Err(Failure::Api { code: cm.0, message: cm.1 }),
            None => Err(Failure::Unreadable { status, body: body.clone() }),
        }
    } else {
        match expected {
            Expected::ContentOnly => Ok(Outcome::Content { status, headers }),
            Expected::Single => match parse_json_canon(body) {
                Some(t) => Ok(Outcome::Single { body: t }),
                None => Err(Failure::Decode),
            },
            Expected::Collection => match parse_collection(body) {
                Some(env) => Ok(Outcome::Collection { items: env.0, next: env.1 }),
                None => Err(Failure::Decode),
            },
            Expected::Delta => match parse_collection(body) {
                Some(env) => Ok(Outcome::Delta {
                    items: env.0,
                    cursor: match env.2 {
                        Some(d) => Some(DeltaCursor::Done(d)),
                        None => match env.1 {
                            Some(n) => Some(DeltaCursor::More(n)),
                            None => None,
                        },
                    },
                }),
                None => Err(Failure::Decode),
            },
        }
    }
}

/// Converts what the transport reported: a transport-layer failure is
/// surfaced as such at once, with no parsing attempted; a delivered
/// response (status, headers, body bytes) is converted by [`convert`].
pub fn pipeline(
    res: Result<(u16, Vec<(Vec<u8>, Vec<u8>)>, Vec<u8>), String>,
    expected: Expected,
) -> (r: Result<Outcome, Failure>)
    ensures
        match res {
            Err(m) => r is Err && r->Err_0@ == FailureModel::Transport(m@),
            Ok(shb) => match r {
                Ok(o) => convert_model(shb.0, pairs_view(shb.1), shb.2@, expected) == Ok::<
                    OutcomeModel,
                    FailureModel,
                >(o@),
                Err(f) => convert_model(shb.0, pairs_view(shb.1), shb.2@, expected) == Err::<
                    OutcomeModel,
                    FailureModel,
                >(f@),
            },
        },
{
    match res {
        Err(m) => Err(Failure::Transport(m)),
        Ok(shb) => convert(shb.0, shb.1, &shb.2, expected),
    }
}

/// Law: a non-success status never converts to a decode failure. It is
/// an api failure exactly when the error envelope parses, carrying its
/// code and message, and an unreadable failure otherwise.
pub proof fn lemma_error_status_never_decode(
    status: u16,
    headers: Seq<(Seq<u8>, Seq<u8>)>,
    body: Seq<u8>,
    expected: Expected,
)
    requires
        !is_success(status),
    ensures
        convert_model(status, headers, body, expected) is Err,
        convert_model(status, headers, body, expected) != Err::<OutcomeModel, FailureModel>(
            FailureModel::Decode,
        ),
        error_envelope_of(body) matches Some(cm) ==> convert_model(status, headers, body, expected)
            == Err::<OutcomeModel, FailureModel>(
            FailureModel::Api { code: cm.0, message: cm.1 },
        ),
        error_envelope_of(body) is None ==> convert_model(status, headers, body, expected) == Err::<
            OutcomeModel,
            FailureModel,
        >(FailureModel::Unreadable { status, body }),
{
}

/// Law: a success status whose body does not decode into the expected
/// shape converts to a decode failure — never to a silently defaulted
/// value.
pub proof fn lemma_bad_body_is_decode_failure(
    status: u16,
    headers: Seq<(Seq<u8>, Seq<u8>)>,
    body: Seq<u8>,
    expected: Expected,
)
    requires
        is_success(status),
        expected != Expected::ContentOnly,
        expected == Expected::Single ==> json_canon_of(body) is None,
        expected != Expected::Single ==> collection_of(body) is None,
    ensures
        convert_model(status, headers, body, expected) == Err::<OutcomeModel, FailureModel>(
            FailureModel::Decode,
        ),
{
}

} // verus!
