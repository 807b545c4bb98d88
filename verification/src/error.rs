//! The error type shared by the whole crate.

use vstd::prelude::*;

use crate::api::{ApiProblem, ApiProblemView, AuthStatus, OrderStatus};

verus! {

/// Everything that can go wrong while talking to an ACME server.
#[derive(Clone, Debug, PartialEq, Eq)]
pub enum Error {
    /// The server answered with a problem document; it is carried verbatim.
    Protocol(ApiProblem),
    /// The connection failed: a timeout or a TLS failure.
    Transport(String),
    /// An operation was invoked on an order in the wrong status.
    State(Option<OrderStatus>),
    /// The account key was rejected, or does not have the expected layout.
    InvalidKey,
    /// Signing a request failed.
    Signing,
    /// The certificate signing request could not be produced.
    Csr,
    /// The downloaded certificate chain is not valid PEM.
    CertificateChain,
    /// The certificate key cannot be used for TLS.
    PrivateKey,
    /// An order was asked for without any domain.
    EmptyDomains,
    /// The directory of the server lacks the entry of this name.
    MissingDirectoryEntry(String),
    /// An entry of the directory is no absolute URL.
    MalformedUrl(String),
    /// The order has no certificate URL although it should have one.
    MissingCertificateUrl,
    /// The server changed the names of an order, which are fixed when the
    /// order is created.
    IdentifiersChanged,
    /// An authorization came to another end than `valid`.
    Authorization(Option<AuthStatus>),
    /// The authorizations handed in are not as many as the order lists.
    AuthorizationsMismatch,
    /// A document of the server could not be read.
    Json(String),
    /// The server named a status that the protocol does not know.
    UnknownStatus(String),
    /// A request was resumed although it waits for nothing.
    NotWaiting,
    /// The server did not come to a decision within the attempts allowed.
    TooManyAttempts,
}

/// The mathematical value of an [`Error`].
pub enum ErrorView {
    Protocol(ApiProblemView),
    Transport(Seq<char>),
    State(Option<OrderStatus>),
    InvalidKey,
    Signing,
    Csr,
    CertificateChain,
    PrivateKey,
    EmptyDomains,
    MissingDirectoryEntry(Seq<char>),
    MalformedUrl(Seq<char>),
    MissingCertificateUrl,
    IdentifiersChanged,
    Authorization(Option<AuthStatus>),
    AuthorizationsMismatch,
    Json(Seq<char>),
    UnknownStatus(Seq<char>),
    NotWaiting,
    TooManyAttempts,
}

impl View for Error {
    type V = ErrorView;

    open spec fn view(&self) -> ErrorView {
        match self {
            Error::Protocol(p) => ErrorView::Protocol(p@),
            Error::Transport(s) => ErrorView::Transport(s@),
            Error::State(s) => ErrorView::State(*s),
            Error::InvalidKey => ErrorView::InvalidKey,
            Error::Signing => ErrorView::Signing,
            Error::Csr => ErrorView::Csr,
            Error::CertificateChain => ErrorView::CertificateChain,
            Error::PrivateKey => ErrorView::PrivateKey,
            Error::EmptyDomains => ErrorView::EmptyDomains,
            Error::MissingDirectoryEntry(s) => ErrorView::MissingDirectoryEntry(s@),
            Error::MalformedUrl(s) => ErrorView::MalformedUrl(s@),
            Error::MissingCertificateUrl => ErrorView::MissingCertificateUrl,
            Error::IdentifiersChanged => ErrorView::IdentifiersChanged,
            Error::Authorization(s) => ErrorView::Authorization(*s),
            Error::AuthorizationsMismatch => ErrorView::AuthorizationsMismatch,
            Error::Json(s) => ErrorView::Json(s@),
            Error::UnknownStatus(s) => ErrorView::UnknownStatus(s@),
            Error::NotWaiting => ErrorView::NotWaiting,
            Error::TooManyAttempts => ErrorView::TooManyAttempts,
        }
    }
}

} // verus!
