//! Errors of connection establishment and of the line codec.
use vstd::prelude::*;

verus! {

/// What can end an attempt to establish or use a connection.
#[derive(Debug, PartialEq, Eq)]
pub enum IrcError {
    /// The encoding label does not name an encoding that is known.
    UnknownCodec { codec: String },
    /// A message could not be encoded under the connection's encoding.
    CodecFailed { codec: String, data: String },
    /// A network connection was asked for, but no server is configured.
    MissingServer,
    /// Reading a file, connecting, or reading from or writing to a stream failed.
    Io { message: String },
    /// Certificate or identity data was rejected, or the handshake failed.
    Tls { message: String },
}

} // verus!
