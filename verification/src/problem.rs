//! The problem document that every refused request is answered with.

use vstd::prelude::*;
use vstd::string::*;

verus! {

/// One field that failed validation, with the reason.
#[derive(Debug)]
pub struct FieldError {
    pub field: String,
    pub message: String,
}

/// A problem document: kind, title, HTTP status, detail and, for validation
/// failures, the fields at fault.
#[derive(Debug)]
pub struct ProblemDetail {
    pub error_type: String,
    pub title: String,
    pub status: u16,
    pub detail: String,
    pub errors: Option<Vec<FieldError>>,
}

/// The content of a problem document.
pub struct ProblemView {
    pub error_type: Seq<char>,
    pub title: Seq<char>,
    pub status: u16,
    pub detail: Seq<char>,
    pub errors: Option<Seq<(Seq<char>, Seq<char>)>>,
}

pub open spec fn field_errors(v: Seq<FieldError>) -> Seq<(Seq<char>, Seq<char>)> {
    Seq::new(v.len(), |i: int| (v[i].field@, v[i].message@))
}

impl View for ProblemDetail {
    type V = ProblemView;

    open spec fn view(&self) -> ProblemView {
        ProblemView {
            error_type: self.error_type@,
            title: self.title@,
            status: self.status,
            detail: self.detail@,
            errors: match self.errors {
                Some(v) => Some(field_errors(v@)),
                None => None,
            },
        }
    }
}

/// A document of the blank kind without field errors.
pub open spec fn plain_problem(title: Seq<char>, status: u16, detail: Seq<char>) -> ProblemView {
    ProblemView { error_type: "about:blank"@, title, status, detail, errors: None }
}

pub open spec fn not_found_problem(detail: Seq<char>) -> ProblemView {
    plain_problem("Not Found"@, 404, detail)
}

pub open spec fn bad_request_problem(detail: Seq<char>) -> ProblemView {
    plain_problem("Bad Request"@, 400, detail)
}

pub open spec fn unauthorized_problem(detail: Seq<char>) -> ProblemView {
    plain_problem("Unauthorized"@, 401, detail)
}

pub open spec fn conflict_problem(detail: Seq<char>) -> ProblemView {
    plain_problem("Conflict"@, 409, detail)
}

pub open spec fn internal_problem(detail: Seq<char>) -> ProblemView {
    plain_problem("Internal Server Error"@, 500, detail)
}

pub open spec fn bad_gateway_problem(detail: Seq<char>) -> ProblemView {
    plain_problem("Bad Gateway"@, 502, detail)
}

pub open spec fn gateway_timeout_problem(detail: Seq<char>) -> ProblemView {
    plain_problem("Gateway Timeout"@, 504, detail)
}

impl ProblemDetail {
    fn plain(title: &str, status: u16, detail: &str) -> (r: ProblemDetail)
        ensures
            r@ == plain_problem(title@, status, detail@),
    {
        ProblemDetail {
            error_type: "about:blank".to_owned(),
            title: title.to_owned(),
            status,
            detail: detail.to_owned(),
            errors: None,
        }
    }

    pub fn not_found(detail: &str) -> (r: ProblemDetail)
        ensures
            r@ == not_found_problem(detail@),
    {
        ProblemDetail::plain("Not Found", 404, detail)
    }

    pub fn bad_request(detail: &str) -> (r: ProblemDetail)
        ensures
            r@ == bad_request_problem(detail@),
    {
        ProblemDetail::plain("Bad Request", 400, detail)
    }

    /// A refused request with the fields at fault, in the order given.
    pub fn validation(detail: &str, errors: Vec<FieldError>) -> (r: ProblemDetail)
        ensures
            r@ == (ProblemView {
                title: "Validation Error"@,
                errors: Some(field_errors(errors@)),
                ..bad_request_problem(detail@)
            }),
    {
        ProblemDetail {
            error_type: "about:blank".to_owned(),
            title: "Validation Error".to_owned(),
            status: 400,
            detail: detail.to_owned(),
            errors: Some(errors),
        }
    }

    pub fn unauthorized(detail: &str) -> (r: ProblemDetail)
        ensures
            r@ == unauthorized_problem(detail@),
    {
        ProblemDetail::plain("Unauthorized", 401, detail)
    }

    pub fn conflict(detail: &str) -> (r: ProblemDetail)
        ensures
            r@ == conflict_problem(detail@),
    {
        ProblemDetail::plain("Conflict", 409, detail)
    }

    pub fn internal(detail: &str) -> (r: ProblemDetail)
        ensures
            r@ == internal_problem(detail@),
    {
        ProblemDetail::plain("Internal Server Error", 500, detail)
    }

    pub fn bad_gateway(detail: &str) -> (r: ProblemDetail)
        ensures
            r@ == bad_gateway_problem(detail@),
    {
        ProblemDetail::plain("Bad Gateway", 502, detail)
    }

    pub fn gateway_timeout(detail: &str) -> (r: ProblemDetail)
        ensures
            r@ == gateway_timeout_problem(detail@),
    {
        ProblemDetail::plain("Gateway Timeout", 504, detail)
    }
}

} // verus!
