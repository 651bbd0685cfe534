//! What the server answers. An answer whose body holds the text `error`
//! anywhere is taken for a report of failure, any other for a success.

use crate::error::Error;
use crate::json::{get_text, json_members, read_members, text_member, ReadMembers};
use crate::text::{chars_of, contains, find};
use vstd::prelude::*;

verus! {

/// What became of a request.
#[derive(Debug)]
pub enum Exchange {
    /// It did not reach the server.
    Unsent,
    /// The server answered and the body could not be read.
    Unread,
    /// The body of the server's answer.
    Body(String),
}

/// The server's account of a failure.
#[derive(Debug)]
pub struct ErrorDetail {
    pub req_uuid: String,
    pub error_type: String,
}

/// What an `ErrorDetail` stands for.
pub struct ErrorDetailView {
    pub req_uuid: Seq<char>,
    pub error_type: Seq<char>,
}

impl DeepView for ErrorDetail {
    type V = ErrorDetailView;

    open spec fn deep_view(&self) -> ErrorDetailView {
        ErrorDetailView { req_uuid: self.req_uuid@, error_type: self.error_type@ }
    }
}

/// The server's answer.
#[derive(Debug)]
pub enum Response {
    /// The request was carried out; the body is kept as it came.
    Success(String),
    /// The request was refused.
    Failure(ErrorDetail),
}

/// What a `Response` stands for.
pub enum ResponseView {
    Success(Seq<char>),
    Failure(ErrorDetailView),
}

impl View for Response {
    type V = ResponseView;

    open spec fn view(&self) -> ResponseView {
        match self {
            Response::Success(body) => ResponseView::Success(body@),
            Response::Failure(detail) => ResponseView::Failure(detail.deep_view()),
        }
    }
}

/// What an answer, or the lack of one, stands for.
pub open spec fn seen(r: Result<Response, Error>) -> Result<ResponseView, Error> {
    match r {
        Ok(response) => Ok(response@),
        Err(e) => Err(e),
    }
}

/// What an exchange came to, as far as the client's next step depends on it.
#[derive(Clone, Copy, Debug, PartialEq, Eq, Structural)]
pub enum Outcome {
    /// The server carried the request out.
    Accepted,
    /// The server refused the request.
    Refused,
    /// There is no answer that could be read.
    Failed(Error),
}

/// The outcome that an answer, or the lack of one, comes to.
pub open spec fn outcome_of(r: Result<ResponseView, Error>) -> Outcome {
    match r {
        Ok(ResponseView::Success(_)) => Outcome::Accepted,
        Ok(ResponseView::Failure(_)) => Outcome::Refused,
        Err(e) => Outcome::Failed(e),
    }
}

/// The account of a failure that an object with these members gives: its
/// `req_uuid` and its `type`, both strings.
pub open spec fn failure_of(members: ReadMembers) -> Option<ErrorDetailView> {
    match (text_member(members, "req_uuid"@), text_member(members, "type"@)) {
        (Ok(Some(req_uuid)), Ok(Some(error_type))) => Some(
            ErrorDetailView { req_uuid, error_type },
        ),
        _ => None,
    }
}

/// The account of a failure that the body `body` gives: that of the object
/// which is its member `error`.
pub open spec fn failure_in(body: Seq<char>) -> Option<ErrorDetailView> {
    match json_members(body, "/error"@) {
        Some(members) => failure_of(members),
        None => None,
    }
}

/// What the body `body` says. With the text `error` in it, it has to give the
/// account of a failure; without, it has to be an object.
pub open spec fn response_in(body: Seq<char>) -> Result<ResponseView, Error> {
    if contains(body, "error"@) {
        match failure_in(body) {
            Some(failure) => Ok(ResponseView::Failure(failure)),
            None => Err(Error::FailedtoReadServerResponse),
        }
    } else if json_members(body, ""@) is Some {
        Ok(ResponseView::Success(body))
    } else {
        Err(Error::FailedtoReadServerResponse)
    }
}

/// What an exchange comes to.
pub open spec fn response_of(exchange: Exchange) -> Result<ResponseView, Error> {
    match exchange {
        Exchange::Unsent => Err(Error::FailedToConnectToServer),
        Exchange::Unread => Err(Error::InvalidServerResponse),
        Exchange::Body(body) => response_in(body@),
    }
}

/// Whether a body reports a failure.
pub fn reports_error(body: &str) -> (b: bool)
    ensures
        b == contains(body@, "error"@),
{
    find(&chars_of(body), &chars_of("error"))
}

/// Computes `failure_in`.
pub fn read_failure(body: &str) -> (r: Option<ErrorDetail>)
    ensures
        r.deep_view() == failure_in(body@),
{
    let members = match read_members(body, "/error") {
        Some(members) => members,
        None => {
            return None;
        },
    };
    match (get_text(&members, "req_uuid"), get_text(&members, "type")) {
        (Ok(Some(req_uuid)), Ok(Some(error_type))) => Some(ErrorDetail { req_uuid, error_type }),
        _ => None,
    }
}

/// Computes `response_in`.
pub fn read_body(body: &str) -> (r: Result<Response, Error>)
    ensures
        seen(r) == response_in(body@),
{
    if reports_error(body) {
        match read_failure(body) {
            Some(detail) => Ok(Response::Failure(detail)),
            None => Err(Error::FailedtoReadServerResponse),
        }
    } else if read_members(body, "").is_some() {
        Ok(Response::Success(body.to_owned()))
    } else {
        Err(Error::FailedtoReadServerResponse)
    }
}

/// Computes `response_of`.
pub fn read_response(exchange: &Exchange) -> (r: Result<Response, Error>)
    ensures
        seen(r) == response_of(*exchange),
{
    match exchange {
        Exchange::Unsent => Err(Error::FailedToConnectToServer),
        Exchange::Unread => Err(Error::InvalidServerResponse),
        Exchange::Body(body) => read_body(body.as_str()),
    }
}

/// Computes `outcome_of`.
pub fn outcome(r: &Result<Response, Error>) -> (o: Outcome)
    ensures
        o == outcome_of(seen(*r)),
{
    match r {
        Ok(Response::Success(_)) => Outcome::Accepted,
        Ok(Response::Failure(_)) => Outcome::Refused,
        Err(e) => Outcome::Failed(*e),
    }
}

} // verus!
