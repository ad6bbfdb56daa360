//! The failures that the stream session reports.
use vstd::prelude::*;

verus! {

/// Why an operation of the stream session failed.
#[derive(Debug)]
pub enum StreamError {
    /// Setting up the connection failed (malformed address, network or
    /// protocol failure); carries the transport's description.
    Handshake(String),
    /// A frame was not JSON, or did not have the shape of the event that its
    /// marker names; carries the offending text.
    Decode(String),
    /// No marker matched the frame; carries the frame's text.
    Unrecognized(String),
    /// The server declared the listen key expired: the caller must obtain a
    /// new one before it reconnects.
    ListenKeyExpired,
    /// The server closed the connection; carries the close payload.
    Disconnected(String),
    /// The operation needs a live connection and there is none.
    NotConnected,
    /// Reading from the connection failed; carries the transport's
    /// description.
    Transport(String),
    /// Handling the frame whose text is carried failed for the carried
    /// reason.
    Stream(String, Box<StreamError>),
    /// A failure reported by the event handler in its own words.
    Msg(String),
}

} // verus!
