use vstd::prelude::*;

verus! {

/// The four kinds of failure an operation can surface, each with a
/// human-readable message.
#[derive(Debug)]
pub enum ClientError {
    /// Invalid or conflicting client construction options.
    Config(String),
    /// A request that cannot be issued as described.
    Validation(String),
    /// A body that cannot be encoded (an unreadable file).
    Encoding(String),
    /// A failure of the transport while sending or reading the response.
    Transport(String),
}

impl ClientError {
    /// The message carried by the error.
    pub fn message(&self) -> (r: String)
        ensures
            r@ == self.message_view(),
    {
        match self {
            ClientError::Config(m) => m.clone(),
            ClientError::Validation(m) => m.clone(),
            ClientError::Encoding(m) => m.clone(),
            ClientError::Transport(m) => m.clone(),
        }
    }

    pub open spec fn message_view(&self) -> Seq<char> {
        match self {
            ClientError::Config(m) => m@,
            ClientError::Validation(m) => m@,
            ClientError::Encoding(m) => m@,
            ClientError::Transport(m) => m@,
        }
    }
}

} // verus!
