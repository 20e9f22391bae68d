use vstd::prelude::*;

verus! {

/// The failures of the protocol client, by where they arise.
pub enum SlackErr {
    /// Network or TLS failure during an HTTP exchange.
    Transport(String),
    /// The handshake endpoint answered `ok: false`; carries its `error` text.
    HandshakeRejected(String),
    /// The handshake succeeded but its `url` is not a usable URL.
    MalformedEndpoint(String),
    /// A frame is not a well-formed envelope; carries what was wrong.
    Decode(String),
    /// The socket could not be opened.
    Connect(String),
    /// The peer closed the socket.
    ConnectionClosed,
    /// Reading a frame failed.
    Read(String),
    /// Writing a frame failed.
    Write(String),
    /// Posting to a callback URL failed.
    Delivery(String),
}

} // verus!
