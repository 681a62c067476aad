//! The errors of the transport side: what went wrong before a request was
//! decoded or after a response was made.

use vstd::prelude::*;
use vstd::string::*;

verus! {

/// An error of the service itself, as opposed to an error response: no
/// exchange was completed.
#[derive(Debug)]
pub enum JsonRpcError {
    /// The request could not be processed.
    RequestProcessing(String),
    /// The response could not be written.
    ResponseSerialization(String),
    /// The request could not be read.
    RequestDeserialization(String),
    /// The request could not be built.
    IntoRpcRequest(String),
    /// The JSON text could not be parsed or written.
    SerdeJson(serde_json::Error),
}

/// Calls `to_string` on a `serde_json::Error`, which writes the error's
/// `Display` text.
#[verifier::external_body]
fn json_error_text(error: &serde_json::Error) -> String {
    error.to_string()
}

/// A fixed beginning followed by a message.
fn prefixed(label: &str, message: &String) -> (text: String)
    ensures
        text@ == label@ + message@,
{
    let mut text = String::from_str(label);
    text.append(message.as_str());
    text
}

impl JsonRpcError {
    /// The error as a line of text: the kind of the error, then its
    /// message. A JSON error is shown by its own text alone.
    pub fn message(&self) -> (text: String)
        ensures
            match self {
                JsonRpcError::RequestProcessing(m) => text@ == "Request processing error: "@ + m@,
                JsonRpcError::ResponseSerialization(m) => text@
                    == "Response serialization error: "@ + m@,
                JsonRpcError::RequestDeserialization(m) => text@
                    == "Request deserialization error: "@ + m@,
                JsonRpcError::IntoRpcRequest(m) => text@ == "error building: "@ + m@,
                JsonRpcError::SerdeJson(_) => true,
            },
    {
        match self {
            JsonRpcError::RequestProcessing(m) => prefixed("Request processing error: ", m),
            JsonRpcError::ResponseSerialization(m) => prefixed("Response serialization error: ", m),
            JsonRpcError::RequestDeserialization(m) => prefixed(
                "Request deserialization error: ",
                m,
            ),
            JsonRpcError::IntoRpcRequest(m) => prefixed("error building: ", m),
            JsonRpcError::SerdeJson(error) => json_error_text(error),
        }
    }
}

} // verus!
