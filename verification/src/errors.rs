use vstd::prelude::*;

verus! {

/// Malformed bytes: the input cannot be decoded as the wire format demands.
#[derive(Clone, Copy, Debug, PartialEq, Eq, Structural)]
pub enum FormatError {
    Truncated,
    InvalidCommand,
    UnknownCommand,
    InvalidCertVersion,
    UnknownCertType,
    UnknownExtensionType,
    InvalidExtensionFlags,
    CircuitIdLengthInvalid,
    PayloadTooLarge,
    X509ParseError,
}

/// Well-formed bytes that are wrong for the current phase of the handshake.
#[derive(Clone, Copy, Debug, PartialEq, Eq, Structural)]
pub enum ProtocolError {
    UnsupportedVersion,
    NoSupportedMethods,
    UnexpectedCellType,
}

/// Any failure a single cell read or parse can produce.
#[derive(Clone, Copy, Debug, PartialEq, Eq, Structural)]
pub enum CellError {
    Format(FormatError),
    Protocol(ProtocolError),
}

/// The failure a handshake halts with, carrying the originating phase error.
#[derive(Clone, Copy, Debug, PartialEq, Eq, Structural)]
pub enum HandshakeError {
    UnsupportedVersion,
    CertsParseError(CellError),
    AuthChallengeParseError(CellError),
    NetInfoParseError(CellError),
    TransportError,
}

} // verus!
