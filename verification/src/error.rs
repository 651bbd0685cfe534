//! The ways in which an operation of the client can fail.

use vstd::prelude::*;

verus! {

/// Why a task body could not be taken from a file.
#[derive(Clone, Copy, Debug, PartialEq, Eq, Structural)]
pub enum ResolveFailure {
    /// A single line and a range of lines were both asked for.
    BothSelectors,
    /// The line asked for is line 0 or lies after the last line.
    LineOutOfRange,
    /// The range starts at line 0.
    RangeStartsAtZero,
    /// The range's start is not before its end.
    EmptyRange,
    /// The range reaches past the last line.
    RangePastEnd,
    /// The file could not be read.
    Unreadable,
}

impl ResolveFailure {
    /// The reason in words.
    pub open spec fn detail_text(&self) -> Seq<char> {
        match self {
            ResolveFailure::BothSelectors => "a line and a range cannot both be given"@,
            ResolveFailure::LineOutOfRange => "the file has no such line"@,
            ResolveFailure::RangeStartsAtZero => "lines are counted from 1"@,
            ResolveFailure::EmptyRange => "the range has to start before it ends"@,
            ResolveFailure::RangePastEnd => "the range reaches past the end of the file"@,
            ResolveFailure::Unreadable => "the file could not be read"@,
        }
    }

    /// The reason in words.
    pub fn detail(&self) -> (r: &'static str)
        ensures
            r@ == self.detail_text(),
    {
        match self {
            ResolveFailure::BothSelectors => "a line and a range cannot both be given",
            ResolveFailure::LineOutOfRange => "the file has no such line",
            ResolveFailure::RangeStartsAtZero => "lines are counted from 1",
            ResolveFailure::EmptyRange => "the range has to start before it ends",
            ResolveFailure::RangePastEnd => "the range reaches past the end of the file",
            ResolveFailure::Unreadable => "the file could not be read",
        }
    }
}

/// A failure of the client.
#[derive(Clone, Copy, Debug, PartialEq, Eq, Structural)]
pub enum Error {
    /// The stored configuration is not the JSON object expected.
    InvalidConfig,
    /// The stored configuration could not be read.
    FailedToReadConfig,
    /// The configuration could not be stored.
    FailedToUpdateConf,
    /// A session token is needed and none is stored.
    NoAuth,
    /// The request did not reach the server.
    FailedToConnectToServer,
    /// The body of the server's answer could not be read.
    InvalidServerResponse,
    /// The body of the server's answer is not the JSON expected.
    FailedtoReadServerResponse,
    /// The server refused the login.
    LoginFail,
    /// The server refused to issue a new key.
    FailedToUpdateKey,
    /// Enrolment on the first run did not succeed.
    FirstRunFailed,
    /// The task body could not be taken from the file.
    FailedToResolveFile { detail: ResolveFailure },
    /// Talking to the terminal failed.
    RsmFailed,
}

} // verus!
