//! The closed set of failure kinds, with the status code and the description
//! that each of them shows to a client.

use crate::field_errors::{
    field_order, grouped, lemma_grouped_nonempty, lemma_grouped_push, pair_texts, FieldErrors,
};
use vstd::prelude::*;

verus! {

/// What is kept of a failure that the storage layer reported.
#[derive(Debug)]
pub struct StorageError {
    /// The message of the storage engine. It is present only when the engine
    /// itself reported the failure, as it does for a constraint violation.
    pub database_message: Option<String>,
    /// The full account of the cause, meant for operators.
    pub detail: String,
}

/// What is kept of a failure inside the service that has no kind of its own.
#[derive(Debug)]
pub struct InternalError {
    /// The full account of the cause, meant for operators.
    pub detail: String,
}

/// A failure, as the transport layer gets to see it.
#[derive(Debug)]
pub enum Error {
    /// The request carries no valid credentials.
    Unauthorized,
    /// The caller is known and may not do this.
    Forbidden,
    /// Nothing lives at the requested path.
    NotFound,
    /// The request body was understood and refused, field by field.
    UnprocessableEntity { errors: FieldErrors },
    /// The storage layer failed. The cause stays on the server.
    Sqlx(StorageError),
    /// Something else failed. The cause stays on the server.
    Anyhow(InternalError),
}

/// One report for the operators: the kind of the failure and the full account
/// of its cause.
#[derive(Debug)]
pub enum Diagnostic {
    /// The storage layer failed.
    Storage(String),
    /// Something else inside the service failed.
    Internal(String),
}

/// What the transport layer writes after the status line.
#[derive(Debug)]
pub enum Body {
    /// A structured object with one member, `errors`, that maps each field to
    /// its messages.
    Errors(FieldErrors),
    /// A plain text.
    Text(String),
}

/// A failure made ready for the transport layer.
#[derive(Debug)]
pub struct Response {
    pub status: u16,
    pub body: Body,
}

/// The status code that goes with each kind of failure.
pub open spec fn status_code_of(e: Error) -> u16 {
    match e {
        Error::Unauthorized => 401,
        Error::Forbidden => 403,
        Error::NotFound => 404,
        Error::UnprocessableEntity { .. } => 422,
        Error::Sqlx(_) => 500,
        Error::Anyhow(_) => 500,
    }
}

/// The fixed sentence that describes each kind of failure.
pub open spec fn description_of(e: Error) -> Seq<char> {
    match e {
        Error::Unauthorized => "authentication required"@,
        Error::Forbidden => "user may not perform that action"@,
        Error::NotFound => "request path not found"@,
        Error::UnprocessableEntity { .. } => "error in the request body"@,
        Error::Sqlx(_) => "an error occurred with the database"@,
        Error::Anyhow(_) => "an internal server error occurred"@,
    }
}

/// Whether `response` is what a client gets to see of `error`: its status
/// code, then its field errors if it refuses a request body, else its fixed
/// description.
pub open spec fn shows(response: Response, error: Error) -> bool {
    &&& response.status == status_code_of(error)
    &&& match error {
        Error::UnprocessableEntity { errors } => response.body == Body::Errors(errors),
        _ => response.body matches Body::Text(text) && text@ == description_of(error),
    }
}

impl Error {
    /// The failure that refuses a request body, from pairs of a field and a
    /// message about it. The messages of a field keep the order of the pairs,
    /// and a field that comes up again adds to what it has.
    pub fn unprocessable_entity(errors: Vec<(String, String)>) -> (error: Error)
        ensures
            error matches Error::UnprocessableEntity { errors: by_field } && by_field@ == grouped(
                pair_texts(errors@),
            ) && by_field.names() == field_order(pair_texts(errors@)) && forall|field: Seq<char>|
                by_field@.contains_key(field) ==> (#[trigger] by_field@[field]).len() > 0,
    {
        let ghost pairs = pair_texts(errors@);
        let mut by_field = FieldErrors::new();
        let mut next: usize = 0;
        proof {
            assert(grouped(pairs.take(0)) =~= Map::<Seq<char>, Seq<Seq<char>>>::empty());
        }
        while next < errors.len()
            invariant
                next <= errors.len(),
                pairs == pair_texts(errors@),
                by_field@ == grouped(pairs.take(next as int)),
                by_field.names() == field_order(pairs.take(next as int)),
            decreases errors.len() - next,
        {
            let field = errors[next].0.clone();
            let message = errors[next].1.clone();
            proof {
                lemma_grouped_push(pairs.take(next as int), pairs[next as int]);
                assert(pairs.take(next + 1) =~= pairs.take(next as int).push(pairs[next as int]));
            }
            by_field = by_field.with(field, message);
            next += 1;
        }
        proof {
            assert(pairs.take(next as int) =~= pairs);
            assert forall|field: Seq<char>| #[trigger]
                grouped(pairs).contains_key(field) implies grouped(pairs)[field].len() > 0 by {
                lemma_grouped_nonempty(pairs, field);
            }
        }
        Error::UnprocessableEntity { errors: by_field }
    }

    /// Takes a failure of the storage layer into the taxonomy, and reports
    /// its cause to the operators, once.
    pub fn from_storage(cause: StorageError, sink: &mut Vec<Diagnostic>) -> (error: Error)
        ensures
            error == Error::Sqlx(cause),
            final(sink)@ == old(sink)@.push(Diagnostic::Storage(cause.detail)),
    {
        sink.push(Diagnostic::Storage(cause.detail.clone()));
        Error::Sqlx(cause)
    }

    /// Takes a failure inside the service into the taxonomy, and reports its
    /// cause to the operators, once.
    pub fn from_internal(cause: InternalError, sink: &mut Vec<Diagnostic>) -> (error: Error)
        ensures
            error == Error::Anyhow(cause),
            final(sink)@ == old(sink)@.push(Diagnostic::Internal(cause.detail)),
    {
        sink.push(Diagnostic::Internal(cause.detail.clone()));
        Error::Anyhow(cause)
    }

    /// The status code of this failure.
    pub fn status_code(&self) -> (code: u16)
        ensures
            code == status_code_of(*self),
    {
        match self {
            Error::Unauthorized => 401,
            Error::Forbidden => 403,
            Error::NotFound => 404,
            Error::UnprocessableEntity { .. } => 422,
            Error::Sqlx(_) | Error::Anyhow(_) => 500,
        }
    }

    /// The sentence shown to a client. It never depends on a cause.
    pub fn description(&self) -> (text: String)
        ensures
            text@ == description_of(*self),
    {
        let fixed: &str = match self {
            Error::Unauthorized => "authentication required",
            Error::Forbidden => "user may not perform that action",
            Error::NotFound => "request path not found",
            Error::UnprocessableEntity { .. } => "error in the request body",
            Error::Sqlx(_) => "an error occurred with the database",
            Error::Anyhow(_) => "an internal server error occurred",
        };
        fixed.to_owned()
    }

    /// The status and the body that a client gets to see. A refused request
    /// body is answered with its field errors, every other failure with its
    /// fixed description: no cause ever reaches the body.
    pub fn into_response(self) -> (response: Response)
        ensures
            shows(response, self),
    {
        let status = self.status_code();
        let text = self.description();
        match self {
            Error::UnprocessableEntity { errors } => Response { status, body: Body::Errors(errors) },
            _ => Response { status, body: Body::Text(text) },
        }
    }
}

/// Whether `needle` stands somewhere in `text`.
pub open spec fn occurs_in(needle: Seq<char>, text: Seq<char>) -> bool {
    exists|at: int|
        0 <= at && at + needle.len() <= text.len() && #[trigger] text.subrange(
            at,
            at + needle.len(),
        ) == needle
}

/// What a client is shown of a storage failure is one fixed sentence, whatever
/// the cause: a text that does not occur in that sentence does not occur in
/// the body.
pub proof fn lemma_storage_failure_hides_cause(cause: StorageError, response: Response, secret: Seq<char>)
    requires
        shows(response, Error::Sqlx(cause)),
        !occurs_in(secret, "an error occurred with the database"@),
    ensures
        response.status == 500,
        response.body matches Body::Text(text) && text@ == "an error occurred with the database"@
            && !occurs_in(secret, text@),
{
}

/// What a client is shown of an internal failure is one fixed sentence,
/// whatever the cause.
pub proof fn lemma_internal_failure_hides_cause(cause: InternalError, response: Response, secret: Seq<char>)
    requires
        shows(response, Error::Anyhow(cause)),
        !occurs_in(secret, "an internal server error occurred"@),
    ensures
        response.status == 500,
        response.body matches Body::Text(text) && text@ == "an internal server error occurred"@
            && !occurs_in(secret, text@),
{
}

} // verus!
