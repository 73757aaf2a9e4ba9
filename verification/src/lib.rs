//! Client side of a Tor-style link-layer handshake: the fixed- and
//! variable-length cell codecs, the certificate-chain parser with its
//! Tor-custom sub-format and extensions, the AUTH_CHALLENGE and NETINFO
//! readers, and the state machine that sequences the exchange. Every decode
//! returns a typed result, and each function's contract states exactly which
//! bytes succeed and which error any other shape yields. The encrypted
//! transport, socket handling and X.509 parsing belong to outside
//! collaborators; parsing here works over plain in-memory byte sources.

pub mod auth_challenge;
pub mod certs;
pub mod cursor;
pub mod errors;
pub mod fixed_cell;
pub mod handshake;
pub mod net_info;
pub mod variable_cell;
pub mod versions;
