use vstd::prelude::*;

verus! {

/// Every way an operation of the protocol core can fail. Each operation
/// returns exactly one of these kinds; none is swallowed, and none triggers a
/// retry inside the core.
#[derive(Debug)]
pub enum Error {
    /// The transport could not complete the round trip at all: a network,
    /// TLS or DNS failure, or a malformed URL. Carries the transport's own
    /// message.
    Transport(String),
    /// The server answered, but with a status code outside the operation's
    /// contract. The code and the response body are preserved verbatim; this
    /// is the only place server-reported business errors surface.
    RequestFailed { status: u16, body: String },
    /// The response body could not be decoded into the expected shape.
    ParseFailure(String),
    /// The response decoded to an empty list where one entity was expected.
    NoEntity,
    /// An identifier-scoped operation was attempted on an entity that is not
    /// the hierarchy root and has no identifier.
    MissingId,
    /// An operation was attempted on an entity never bound to a session.
    NoSession,
}

impl Error {
    /// A short description of the failure. For the kinds that carry text
    /// from the transport or the server, that text is the description.
    pub fn message(&self) -> (r: String)
        ensures
            match self {
                Error::Transport(m) => r@ == m@,
                Error::RequestFailed { status: _, body } => r@ == body@,
                Error::ParseFailure(m) => r@ == m@,
                Error::NoEntity => r@ == "No entity in response body"@,
                Error::MissingId => r@ == "The entity does not have an ID"@,
                Error::NoSession => r@ == "Entities must hold a reference to a session to perform ReST requests"@,
            },
    {
        match self {
            Error::Transport(m) => m.clone(),
            Error::RequestFailed { status: _, body } => body.clone(),
            Error::ParseFailure(m) => m.clone(),
            Error::NoEntity => String::from_str("No entity in response body"),
            Error::MissingId => String::from_str("The entity does not have an ID"),
            Error::NoSession => String::from_str(
                "Entities must hold a reference to a session to perform ReST requests",
            ),
        }
    }
}

} // verus!
