//! Plain-value types of the aish plugin ABI (major version 1).
//!
//! The JSON framing itself (serde) lives with the program around the
//! library; here are the values the plugin's logic builds and reads.
use vstd::prelude::*;

verus! {

/// ABI major version this plugin targets. The host enforces the match; it is
/// kept beside the frame definitions so the version is visible with them.
pub const ABI_MAJOR: u32 = 1;

/// One chat message sent to the host's model service.
#[derive(Debug, Clone, PartialEq, Eq)]
pub struct WireMessage {
    pub role: String,
    pub content: String,
}

/// The characters of a chat message's role and content.
pub struct MessageView {
    pub role: Seq<char>,
    pub content: Seq<char>,
}

impl View for WireMessage {
    type V = MessageView;

    open spec fn view(&self) -> MessageView {
        MessageView { role: self.role@, content: self.content@ }
    }
}

/// The error part of a failed host response.
#[derive(Debug, Clone, PartialEq, Eq)]
pub struct ProtoError {
    pub code: String,
    pub message: String,
}

/// The text of a service error: `"{code}: {message}"` when the host sent an
/// error object, `"service error"` otherwise.
pub open spec fn service_error_text(error: Option<(Seq<char>, Seq<char>)>) -> Seq<char> {
    match error {
        Some((code, message)) => code + ": "@ + message,
        None => "service error"@,
    }
}

/// Describes a failed response from the host.
pub fn service_error(error: &Option<ProtoError>) -> (r: String)
    ensures
        r@ == service_error_text(
            match error {
                Some(e) => Some((e.code@, e.message@)),
                None => None,
            },
        ),
{
    match error {
        Some(e) => {
            let mut s = e.code.clone();
            s.append(": ");
            s.append(e.message.as_str());
            s
        },
        None => "service error".to_owned(),
    }
}

} // verus!
