//! The error kinds that the client surfaces.

use vstd::prelude::*;

verus! {

/// Everything that can go wrong in the client. Variants that stem from a
/// foreign failure carry its text.
#[derive(Debug)]
pub enum Error {
    /// Reading transport-security material failed.
    IOError(String),
    /// An endpoint address is not a well-formed URI.
    InvalidURI(String),
    /// The connection could not be built.
    Transport(String),
    /// A call completed with a status that is not retried.
    Response(tonic::Status),
    /// An outbound stream queue closed before a send completed.
    ChannelClosed,
    /// A stream closed before its first message.
    CreateWatch,
    /// The first message of a watch was not a clean acknowledgement.
    WatchEvent(String),
    KeepAliveLease,
    /// The outbound watch queue refused the create request.
    WatchChannelSend,
    WatchEventExhausted,
    InvalidMetadataToken(String),
    /// The token is not representable as call metadata.
    ParseMetadataToken(String),
    PoisonError(String),
    /// Every attempt was used up without a decisive outcome.
    ExecuteFailed,
}

/// The text that a status displays as.
pub uninterp spec fn status_rendering(status: tonic::Status) -> Seq<char>;

/// Renders a status with the `Display` impl of `tonic::Status`, which
/// writes the code, the message, the details and the metadata that the
/// status holds, in the order it holds them: the text depends on the status
/// alone.
#[verifier::external_body]
fn status_text(status: &tonic::Status) -> (text: String)
    ensures
        text@ == status_rendering(*status),
{
    status.to_string()
}

fn labelled(label: &str, detail: &str) -> (text: String)
    ensures
        text@ == label@ + detail@,
{
    let mut text = label.to_owned();
    text.append(detail);
    text
}

impl Error {
    /// The fixed words that a message of this kind begins with.
    pub open spec fn label(self) -> Seq<char> {
        match self {
            Error::IOError(_) => "io error: "@,
            Error::InvalidURI(_) => "invalid URI: "@,
            Error::Transport(_) => "gRPC transport error: "@,
            Error::Response(_) => "response failed, status: "@,
            Error::ChannelClosed => "channel closed"@,
            Error::CreateWatch => "failed to create watch"@,
            Error::WatchEvent(_) => "unexpected watch event: "@,
            Error::KeepAliveLease => "failed to keep alive lease"@,
            Error::WatchChannelSend => "watch channel send error: channel closed"@,
            Error::WatchEventExhausted => "watch event exhausted"@,
            Error::InvalidMetadataToken(_) => "invalid metadata token: "@,
            Error::ParseMetadataToken(_) => "parse metadata token: "@,
            Error::PoisonError(_) => "poison error: "@,
            Error::ExecuteFailed => "execute failed"@,
        }
    }

    /// The text that follows the label, where the kind carries one.
    pub open spec fn detail(self) -> Option<Seq<char>> {
        match self {
            Error::Response(status) => Some(status_rendering(status)),
            Error::IOError(s) => Some(s@),
            Error::InvalidURI(s) => Some(s@),
            Error::Transport(s) => Some(s@),
            Error::WatchEvent(s) => Some(s@),
            Error::InvalidMetadataToken(s) => Some(s@),
            Error::ParseMetadataToken(s) => Some(s@),
            Error::PoisonError(s) => Some(s@),
            _ => None,
        }
    }

    /// The message of the error: its label, followed by its detail if it
    /// carries one. For a protocol status the detail is the transport's
    /// rendering of the status.
    pub fn message(&self) -> (text: String)
        ensures
            text@ == (match self.detail() {
                Some(d) => self.label() + d,
                None => self.label(),
            }),
    {
        match self {
            Error::IOError(s) => labelled("io error: ", s.as_str()),
            Error::InvalidURI(s) => labelled("invalid URI: ", s.as_str()),
            Error::Transport(s) => labelled("gRPC transport error: ", s.as_str()),
            Error::Response(status) => {
                let rendered = status_text(status);
                labelled("response failed, status: ", rendered.as_str())
            },
            Error::ChannelClosed => "channel closed".to_owned(),
            Error::CreateWatch => "failed to create watch".to_owned(),
            Error::WatchEvent(s) => labelled("unexpected watch event: ", s.as_str()),
            Error::KeepAliveLease => "failed to keep alive lease".to_owned(),
            Error::WatchChannelSend => "watch channel send error: channel closed".to_owned(),
            Error::WatchEventExhausted => "watch event exhausted".to_owned(),
            Error::InvalidMetadataToken(s) => labelled("invalid metadata token: ", s.as_str()),
            Error::ParseMetadataToken(s) => labelled("parse metadata token: ", s.as_str()),
            Error::PoisonError(s) => labelled("poison error: ", s.as_str()),
            Error::ExecuteFailed => "execute failed".to_owned(),
        }
    }
}

} // verus!
