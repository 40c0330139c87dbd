//! HTTP-facing values: error bodies, status codes and request validation.

use vstd::prelude::*;

verus! {

pub const STATUS_OK: u16 = 200;
pub const STATUS_CREATED: u16 = 201;
pub const STATUS_NO_CONTENT: u16 = 204;
pub const STATUS_BAD_REQUEST: u16 = 400;
pub const STATUS_UNAUTHORIZED: u16 = 401;
pub const STATUS_FORBIDDEN: u16 = 403;
pub const STATUS_NOT_FOUND: u16 = 404;
pub const STATUS_CONFLICT: u16 = 409;
pub const STATUS_UNPROCESSABLE_ENTITY: u16 = 422;
pub const STATUS_INTERNAL_SERVER_ERROR: u16 = 500;
pub const STATUS_BAD_GATEWAY: u16 = 502;

/// One entry of an `"errors"` object: a field name and its message.
#[derive(Debug, Clone, PartialEq, Eq)]
pub struct FieldMessage {
    pub field: String,
    pub message: String,
}

/// The JSON body of an error response.
#[derive(Debug, Clone, PartialEq, Eq)]
pub enum ErrorBody {
    /// `{"error": message}`
    Error(String),
    /// `{"errors": {field: message, ...}}`, entries in this order.
    Errors(Vec<FieldMessage>),
}

/// An error response: status code and JSON body.
#[derive(Debug, Clone, PartialEq, Eq)]
pub struct ApiError {
    pub status: u16,
    pub body: ErrorBody,
}

/// The view of an error body: a message, or field/message pairs in order.
pub enum ErrorBodyView {
    Error(Seq<char>),
    Errors(Seq<(Seq<char>, Seq<char>)>),
}

impl FieldMessage {
    pub open spec fn view(&self) -> (Seq<char>, Seq<char>) {
        (self.field@, self.message@)
    }
}

impl ErrorBody {
    pub open spec fn view(&self) -> ErrorBodyView {
        match self {
            ErrorBody::Error(m) => ErrorBodyView::Error(m@),
            ErrorBody::Errors(v) => ErrorBodyView::Errors(v@.map_values(|f: FieldMessage| f.view())),
        }
    }
}

impl ApiError {
    /// The error as a status code and a body view.
    pub open spec fn view(&self) -> (u16, ErrorBodyView) {
        (self.status, self.body.view())
    }
}

/// `{"error": msg}` with the given status.
pub open spec fn error_response(status: u16, msg: Seq<char>) -> (u16, ErrorBodyView) {
    (status, ErrorBodyView::Error(msg))
}

/// `{"errors": {field: msg}}` with the given status.
pub open spec fn field_error_response(status: u16, field: Seq<char>, msg: Seq<char>) -> (u16, ErrorBodyView) {
    (status, ErrorBodyView::Errors(seq![(field, msg)]))
}

/// An error response `{"error": msg}` with the given status.
pub fn json_error(status: u16, msg: &str) -> (e: ApiError)
    ensures
        e.view() == error_response(status, msg@),
{
    ApiError { status, body: ErrorBody::Error(msg.to_owned()) }
}

/// An error response `{"errors": {field: msg}}` with the given status.
pub fn json_field_error(status: u16, field: &str, msg: &str) -> (e: ApiError)
    ensures
        e.view() == field_error_response(status, field@, msg@),
{
    let mut v: Vec<FieldMessage> = Vec::new();
    v.push(FieldMessage { field: field.to_owned(), message: msg.to_owned() });
    let e = ApiError { status, body: ErrorBody::Errors(v) };
    assert(e.body.view() == ErrorBodyView::Errors(seq![(field@, msg@)])) by {
        assert(v@.map_values(|f: FieldMessage| f.view()) =~= seq![(field@, msg@)]);
    }
    e
}

/// The answer to a request body that is not valid JSON for the endpoint:
/// `422 {"errors": {"detail": <rejection text>}}`.
pub fn json_rejection_error(detail: &str) -> (e: ApiError)
    ensures
        e.view() == field_error_response(STATUS_UNPROCESSABLE_ENTITY, "detail"@, detail@),
{
    json_field_error(STATUS_UNPROCESSABLE_ENTITY, "detail", detail)
}

/// One failed validation rule: its code and optional message.
#[derive(Debug, Clone, PartialEq, Eq)]
pub struct Violation {
    pub code: String,
    pub message: Option<String>,
}

/// The failed rules of one request field.
#[derive(Debug, Clone, PartialEq, Eq)]
pub struct FieldViolations {
    pub field: String,
    pub violations: Vec<Violation>,
}

/// The text shown for a failed rule: its message, or else its code.
pub open spec fn violation_text(v: Violation) -> Seq<char> {
    match v.message {
        Some(m) => m@,
        None => v.code@,
    }
}

/// The texts of `s` joined with `", "`.
pub open spec fn join_comma(s: Seq<Seq<char>>) -> Seq<char>
    decreases s.len(),
{
    if s.len() == 0 {
        Seq::empty()
    } else if s.len() == 1 {
        s[0]
    } else {
        join_comma(s.drop_last()) + ", "@ + s.last()
    }
}

/// The `"errors"` entry of one field: its name and the texts of its failed
/// rules joined with `", "`.
pub open spec fn field_entry(f: FieldViolations) -> (Seq<char>, Seq<char>) {
    (f.field@, join_comma(f.violations@.map_values(|v: Violation| violation_text(v))))
}

/// Joins the texts of one field's failed rules.
fn join_violations(violations: &Vec<Violation>) -> (res: String)
    ensures
        res@ == join_comma(violations@.map_values(|v: Violation| violation_text(v))),
{
    let ghost texts = violations@.map_values(|v: Violation| violation_text(v));
    let mut res = String::new();
    let mut i: usize = 0;
    proof {
        reveal_strlit(", ");
    }
    while i < violations.len()
        invariant
            texts == violations@.map_values(|v: Violation| violation_text(v)),
            i <= violations.len(),
            res@ == join_comma(texts.take(i as int)),
        decreases violations.len() - i,
    {
        let v = &violations[i];
        assert(texts.take(i + 1).drop_last() =~= texts.take(i as int));
        assert(texts.take(i + 1).last() == violation_text(*v));
        if i != 0 {
            res.append(", ");
        }
        match &v.message {
            Some(m) => res.append(m.as_str()),
            None => res.append(v.code.as_str()),
        }
        if i == 0 {
            assert(res@ =~= texts.take(1)[0]);
        }
        i = i + 1;
    }
    assert(texts.take(violations.len() as int) =~= texts);
    res
}

/// The answer to a request that fails validation: `422` with an
/// `"errors"` object holding, for each field in the given order, the texts
/// of its failed rules joined with `", "`.
pub fn handle_validation_errors(errors: &Vec<FieldViolations>) -> (e: ApiError)
    ensures
        e.view() == (STATUS_UNPROCESSABLE_ENTITY, ErrorBodyView::Errors(
            errors@.map_values(|f: FieldViolations| field_entry(f)),
        )),
{
    let ghost entries = errors@.map_values(|f: FieldViolations| field_entry(f));
    let mut out: Vec<FieldMessage> = Vec::new();
    let mut i: usize = 0;
    while i < errors.len()
        invariant
            entries == errors@.map_values(|f: FieldViolations| field_entry(f)),
            i <= errors.len(),
            out@.len() == i,
            forall|k: int| 0 <= k < i ==> (#[trigger] out@[k]).view() == entries[k],
        decreases errors.len() - i,
    {
        let f = &errors[i];
        let joined = join_violations(&f.violations);
        out.push(FieldMessage { field: f.field.clone(), message: joined });
        i = i + 1;
    }
    let e = ApiError { status: STATUS_UNPROCESSABLE_ENTITY, body: ErrorBody::Errors(out) };
    assert(out@.map_values(|f: FieldMessage| f.view()) =~= entries);
    e
}

/// A single length rule failed with the given message (validator's code
/// `length`).
pub fn length_violation(field: &str, message: &str) -> (f: FieldViolations)
    ensures
        f.field@ == field@,
        f.violations@.len() == 1,
        f.violations@[0].code@ == "length"@,
        f.violations@[0].message matches Some(m) && m@ == message@,
{
    let mut v: Vec<Violation> = Vec::new();
    v.push(Violation { code: "length".to_owned(), message: Some(message.to_owned()) });
    FieldViolations { field: field.to_owned(), violations: v }
}

/// The `length(min, max)` rule on a text: its character count lies between
/// the bounds.
pub open spec fn length_ok(s: Seq<char>, min: int, max: int) -> bool {
    min <= s.len() <= max
}

/// Whether a text has between `min` and `max` characters.
pub fn check_length(s: &str, min: usize, max: usize) -> (b: bool)
    ensures
        b == length_ok(s@, min as int, max as int),
{
    let n = s.unicode_len();
    min <= n && n <= max
}

} // verus!
