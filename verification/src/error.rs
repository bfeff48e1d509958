//! The failures of the library.

use vstd::prelude::*;
use crate::json::error_text;

verus! {

/// A failure of the codec, of the configuration, or of a request.
#[derive(Debug)]
pub enum JuError {
    /// A document of a message is no JSON text.
    JsonError(serde_json::Error),
    /// A shell request of a type that the server does not serve.
    UnsupportedMessageType(String),
    /// A frame sequence that lacks the delimiter or one of the parts after it.
    MalformedMessage(String),
    /// A signature scheme that is neither empty nor known.
    UnknownDigest(String),
    /// An `execute_request` whose content has no string `code`.
    NoCode(String),
    GeneralJukerError(String),
}

pub type JuResult<T> = Result<T, JuError>;

impl JuError {
    /// The text of the failure, for the variants that carry their own.
    pub open spec fn spec_message(self) -> Option<Seq<char>> {
        match self {
            JuError::JsonError(_) => None,
            JuError::UnsupportedMessageType(t) => Some("Unsupported Jupyter Message type: "@ + t@),
            JuError::MalformedMessage(t) => Some("Malformed Jupyter Message: "@ + t@),
            JuError::UnknownDigest(t) => Some("Unknown Digest: "@ + t@),
            JuError::NoCode(t) => Some("execute_request has no code: "@ + t@),
            JuError::GeneralJukerError(t) => Some("Juker encountered an error: "@ + t@),
        }
    }

    /// The text of the failure, as it is logged. For a JSON failure it is the
    /// text that `serde_json` gives.
    pub fn message(&self) -> (r: String)
        ensures
            self.spec_message() matches Some(m) ==> r@ == m,
    {
        match self {
            JuError::JsonError(e) => error_text(e),
            JuError::UnsupportedMessageType(t) => "Unsupported Jupyter Message type: ".to_owned().concat(
                t.as_str(),
            ),
            JuError::MalformedMessage(t) => "Malformed Jupyter Message: ".to_owned().concat(
                t.as_str(),
            ),
            JuError::UnknownDigest(t) => "Unknown Digest: ".to_owned().concat(t.as_str()),
            JuError::NoCode(t) => "execute_request has no code: ".to_owned().concat(t.as_str()),
            JuError::GeneralJukerError(t) => "Juker encountered an error: ".to_owned().concat(
                t.as_str(),
            ),
        }
    }
}

} // verus!
