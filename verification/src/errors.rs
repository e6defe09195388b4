//! What can go wrong, and what the engine does about each kind of failure.

use crate::feed::FeedError;
use vstd::prelude::*;

verus! {

#[verifier::external_type_specification]
#[verifier::external_body]
pub struct ExUrlParseError(url::ParseError);

/// A failure of the persistence layer, with the message it gave.
pub enum DatabaseError {
    /// A query failed.
    DieselResultError(String),
    /// The schema could not be brought up to date.
    DieselMigrationError(String),
    /// The connection manager failed.
    R2D2Error(String),
    /// No connection could be had from the pool.
    R2D2PoolError(String),
}

/// A failure to fetch over HTTP.
pub enum HttpError {
    /// The request failed: connect, timeout, redirect loop.
    ReqError(String),
    /// The connection broke or the response was not HTTP.
    HyperError(String),
    /// The address is not a URL.
    UrlError(url::ParseError),
    /// The TLS handshake failed.
    TLSError(String),
}

/// A failure of a cover or episode download that is no fault of the network.
#[derive(Clone, Copy, PartialEq, Eq, Structural, Debug)]
pub enum DownloadError {
    /// Whoever asked is gone; nobody needs the result any more.
    NoLongerNeeded,
    /// The show names no image, or an empty one. Trying again cannot help.
    NoImageLocation,
    /// Waiting for another task took longer than the limit.
    TimedOut,
    /// The transfer or the thumbnails failed.
    Failed,
}

/// The kinds of failure the engine distinguishes.
#[derive(Clone, Copy, PartialEq, Eq, Structural, Debug)]
pub enum ErrorKind {
    /// Connect, TLS or timeout trouble.
    Network,
    /// A malformed feed or unexpected content.
    Protocol,
    /// The persistence layer failed.
    Data,
    /// A row that should exist does not.
    NotFound,
    /// The requester was torn down in the meantime.
    NoLongerNeeded,
    /// A wait exceeded its bound.
    Timeout,
    /// A setting makes the operation impossible.
    TerminalConfig,
}

impl ErrorKind {
    /// Whether trying the same operation again later may succeed.
    pub open spec fn spec_retryable(self) -> bool {
        self == ErrorKind::Network || self == ErrorKind::Data || self == ErrorKind::Timeout
    }

    /// Whether trying the same operation again later may succeed. A missing
    /// image address, a malformed feed, a missing row and a vanished
    /// requester are final.
    #[verifier::when_used_as_spec(spec_retryable)]
    pub fn retryable(self) -> (r: bool)
        ensures
            r == self.spec_retryable(),
    {
        match self {
            ErrorKind::Network | ErrorKind::Data | ErrorKind::Timeout => true,
            _ => false,
        }
    }

    /// Whether the failure is shown to the user.
    pub open spec fn spec_reported(self) -> bool {
        self != ErrorKind::NoLongerNeeded
    }

    /// Whether the failure is logged and shown to the user. Only a vanished
    /// requester is passed over in silence: it is a normal teardown race.
    #[verifier::when_used_as_spec(spec_reported)]
    pub fn reported(self) -> (r: bool)
        ensures
            r == self.spec_reported(),
    {
        match self {
            ErrorKind::NoLongerNeeded => false,
            _ => true,
        }
    }
}

impl HttpError {
    /// The kind of this failure: always a network failure, which the caller
    /// may try again.
    pub fn kind(&self) -> (k: ErrorKind)
        ensures
            k == ErrorKind::Network,
    {
        ErrorKind::Network
    }
}

impl DatabaseError {
    /// The kind of this failure: always a data failure.
    pub fn kind(&self) -> (k: ErrorKind)
        ensures
            k == ErrorKind::Data,
    {
        ErrorKind::Data
    }
}

impl DownloadError {
    /// The kind of a download failure.
    pub open spec fn spec_kind(self) -> ErrorKind {
        match self {
            DownloadError::NoLongerNeeded => ErrorKind::NoLongerNeeded,
            DownloadError::NoImageLocation => ErrorKind::TerminalConfig,
            DownloadError::TimedOut => ErrorKind::Timeout,
            DownloadError::Failed => ErrorKind::Network,
        }
    }

    /// The kind of this failure.
    #[verifier::when_used_as_spec(spec_kind)]
    pub fn kind(self) -> (k: ErrorKind)
        ensures
            k == self.spec_kind(),
    {
        match self {
            DownloadError::NoLongerNeeded => ErrorKind::NoLongerNeeded,
            DownloadError::NoImageLocation => ErrorKind::TerminalConfig,
            DownloadError::TimedOut => ErrorKind::Timeout,
            DownloadError::Failed => ErrorKind::Network,
        }
    }
}

/// Why the run for one source ended without indexing.
pub enum SourceError {
    /// The feed could not be fetched.
    Http(HttpError),
    /// The document is no feed.
    Feed(FeedError),
    /// A new row was needed and the table has no id left for it.
    OutOfIds,
}

impl SourceError {
    /// The kind of this failure.
    pub open spec fn spec_kind(&self) -> ErrorKind {
        match self {
            SourceError::Http(_) => ErrorKind::Network,
            SourceError::Feed(_) => ErrorKind::Protocol,
            SourceError::OutOfIds => ErrorKind::Data,
        }
    }

    /// The kind of this failure.
    #[verifier::when_used_as_spec(spec_kind)]
    pub fn kind(&self) -> (k: ErrorKind)
        ensures
            k == self.spec_kind(),
    {
        match self {
            SourceError::Http(e) => e.kind(),
            SourceError::Feed(_) => ErrorKind::Protocol,
            SourceError::OutOfIds => ErrorKind::Data,
        }
    }
}

} // verus!
