use vstd::prelude::*;

use crate::auth_challenge::{
    auth_codes, auth_payload_parses, recognized_methods, AuthChallengeCell,
};
use crate::certs::{certs_model, spec_parse_certs_payload, CertsCell};
use crate::cursor::ByteCursor;
use crate::errors::{CellError, FormatError, HandshakeError, ProtocolError};
use crate::fixed_cell::{fixed_command_of_byte, FixedCommand};
use crate::net_info::NetInfoCell;
use crate::variable_cell::{
    var_payload, variable_cell_parses, variable_command_of_byte, VariableCommand,
};
use crate::versions::{contains_version, is_supported, read_handshake_versions_cell,
    LINK_PROTOCOL_VERSION};

verus! {

/// The phases of the client handshake, in order, plus the terminal failure.
#[derive(Clone, Copy, Debug, PartialEq, Eq, Structural)]
pub enum HandshakeState {
    Start,
    VersionsSent,
    VersionsNegotiated,
    CertsReceived,
    AuthChallengeReceived,
    Authenticated,
    Failed(HandshakeError),
}

/// What the transport driver is to do next for a given state.
#[derive(Clone, Copy, Debug, PartialEq, Eq, Structural)]
pub enum HandshakeAction {
    SendVersions,
    ReadPeerVersions,
    ReadCerts,
    ReadAuthChallenge,
    ReadNetInfo,
    Stop,
}

/// The one action each state calls for. A terminal state, successful or
/// failed, asks for nothing further: no later phase is ever attempted.
pub open spec fn spec_next_action(s: HandshakeState) -> HandshakeAction {
    match s {
        HandshakeState::Start => HandshakeAction::SendVersions,
        HandshakeState::VersionsSent => HandshakeAction::ReadPeerVersions,
        HandshakeState::VersionsNegotiated => HandshakeAction::ReadCerts,
        HandshakeState::CertsReceived => HandshakeAction::ReadAuthChallenge,
        HandshakeState::AuthChallengeReceived => HandshakeAction::ReadNetInfo,
        HandshakeState::Authenticated => HandshakeAction::Stop,
        HandshakeState::Failed(_) => HandshakeAction::Stop,
    }
}

/// An established link, the outcome of a completed handshake. No
/// AUTHENTICATE cell has been sent at this point: reaching it does not
/// include authenticating this client to the relay.
#[derive(Clone, Copy, Debug, PartialEq, Eq, Structural)]
pub struct TorConnection {
    pub negotiated_version: u16,
}

/// One client handshake in progress. The session owns only what it has
/// extracted from consumed cells; the byte stream belongs to the caller,
/// who performs each `HandshakeAction` and hands the bytes read back in.
pub struct HandshakeSession {
    pub state: HandshakeState,
    pub negotiated_version: Option<u16>,
    pub certs: Option<CertsCell>,
    pub auth_challenge: Option<AuthChallengeCell>,
}

impl HandshakeSession {
    pub fn new() -> (s: HandshakeSession)
        ensures
            s.state == HandshakeState::Start,
            s.negotiated_version is None,
            s.certs is None,
            s.auth_challenge is None,
    {
        HandshakeSession {
            state: HandshakeState::Start,
            negotiated_version: None,
            certs: None,
            auth_challenge: None,
        }
    }

    /// The action the driver should perform next.
    pub fn next_action(&self) -> (a: HandshakeAction)
        ensures
            a == spec_next_action(self.state),
    {
        match self.state {
            HandshakeState::Start => HandshakeAction::SendVersions,
            HandshakeState::VersionsSent => HandshakeAction::ReadPeerVersions,
            HandshakeState::VersionsNegotiated => HandshakeAction::ReadCerts,
            HandshakeState::CertsReceived => HandshakeAction::ReadAuthChallenge,
            HandshakeState::AuthChallengeReceived => HandshakeAction::ReadNetInfo,
            HandshakeState::Authenticated => HandshakeAction::Stop,
            HandshakeState::Failed(_) => HandshakeAction::Stop,
        }
    }

    /// Records that the bootstrap VERSIONS cell went out.
    pub fn on_versions_sent(&mut self)
        requires
            old(self).state == HandshakeState::Start,
        ensures
            final(self).state == HandshakeState::VersionsSent,
            final(self).negotiated_version == old(self).negotiated_version,
            final(self).certs == old(self).certs,
            final(self).auth_challenge == old(self).auth_challenge,
    {
        self.state = HandshakeState::VersionsSent;
    }

    /// Consumes the bytes read for the peer's VERSIONS cell. The phase
    /// succeeds only when the bytes decode as a legacy-width variable cell
    /// whose payload advertises version 5; any other outcome fails the
    /// handshake with `UnsupportedVersion`, and the session then asks for no
    /// further read.
    pub fn on_peer_versions(&mut self, bytes: Vec<u8>)
        requires
            old(self).state == HandshakeState::VersionsSent,
        ensures
            final(self).certs == old(self).certs,
            final(self).auth_challenge == old(self).auth_challenge,
            if variable_cell_parses(bytes@, true) && contains_version(
                var_payload(bytes@, true),
                LINK_PROTOCOL_VERSION as u16,
            ) {
                &&& final(self).state == HandshakeState::VersionsNegotiated
                &&& final(self).negotiated_version == Some(LINK_PROTOCOL_VERSION)
            } else {
                &&& final(self).state == HandshakeState::Failed(
                    HandshakeError::UnsupportedVersion,
                )
                &&& spec_next_action(final(self).state) == HandshakeAction::Stop
            },
    {
        let mut rdr = ByteCursor::new(bytes);
        let cell = match read_handshake_versions_cell(&mut rdr) {
            Ok(c) => c,
            Err(_) => {
                self.state = HandshakeState::Failed(HandshakeError::UnsupportedVersion);
                return ;
            },
        };
        if is_supported(&cell) {
            self.negotiated_version = Some(LINK_PROTOCOL_VERSION);
            self.state = HandshakeState::VersionsNegotiated;
        } else {
            self.state = HandshakeState::Failed(HandshakeError::UnsupportedVersion);
        }
    }

    /// Consumes the bytes read for the CERTS cell. On a decoded Certs cell
    /// whose payload parses, the chain is retained and the session moves on;
    /// any failure becomes `Failed(CertsParseError)` carrying it.
    pub fn on_certs(&mut self, bytes: Vec<u8>)
        requires
            old(self).state == HandshakeState::VersionsNegotiated,
        ensures
            final(self).negotiated_version == old(self).negotiated_version,
            final(self).auth_challenge == old(self).auth_challenge,
            if variable_cell_parses(bytes@, false) {
                if variable_command_of_byte(bytes@[4]) == Some(VariableCommand::Certs) {
                    match spec_parse_certs_payload(var_payload(bytes@, false)) {
                        Ok(ms) => {
                            &&& final(self).state == HandshakeState::CertsReceived
                            &&& final(self).certs matches Some(cc) && certs_model(cc.certs@) == ms
                        },
                        Err(e) => final(self).state == HandshakeState::Failed(
                            HandshakeError::CertsParseError(CellError::Format(e)),
                        ),
                    }
                } else {
                    final(self).state == HandshakeState::Failed(
                        HandshakeError::CertsParseError(
                            CellError::Protocol(ProtocolError::UnexpectedCellType),
                        ),
                    )
                }
            } else {
                final(self).state == HandshakeState::Failed(
                    HandshakeError::CertsParseError(
                        CellError::Format(crate::variable_cell::variable_decode_err(bytes@, false)),
                    ),
                )
            },
    {
        let mut rdr = ByteCursor::new(bytes);
        match CertsCell::from_reader(&mut rdr) {
            Ok(cc) => {
                self.certs = Some(cc);
                self.state = HandshakeState::CertsReceived;
            },
            Err(e) => {
                self.state = HandshakeState::Failed(HandshakeError::CertsParseError(e));
            },
        }
    }

    /// Records the external X.509 collaborator's verdict that a DER entry of
    /// the received chain did not parse: the handshake fails with the
    /// certificate phase's error.
    pub fn on_x509_parse_failed(&mut self)
        requires
            old(self).state == HandshakeState::CertsReceived,
        ensures
            final(self).state == HandshakeState::Failed(
                HandshakeError::CertsParseError(CellError::Format(FormatError::X509ParseError)),
            ),
            final(self).negotiated_version == old(self).negotiated_version,
            final(self).certs == old(self).certs,
            final(self).auth_challenge == old(self).auth_challenge,
    {
        self.state = HandshakeState::Failed(
            HandshakeError::CertsParseError(CellError::Format(FormatError::X509ParseError)),
        );
    }

    /// Consumes the bytes read for the AUTH_CHALLENGE cell. On a decoded
    /// AuthChallenge cell whose payload parses with at least one recognized
    /// method, the challenge is retained; any failure becomes
    /// `Failed(AuthChallengeParseError)` carrying it.
    pub fn on_auth_challenge(&mut self, bytes: Vec<u8>)
        requires
            old(self).state == HandshakeState::CertsReceived,
        ensures
            final(self).negotiated_version == old(self).negotiated_version,
            final(self).certs == old(self).certs,
            if variable_cell_parses(bytes@, false) {
                if variable_command_of_byte(bytes@[4]) == Some(VariableCommand::AuthChallenge) {
                    if auth_payload_parses(var_payload(bytes@, false)) {
                        if recognized_methods(auth_codes(var_payload(bytes@, false))).len() > 0 {
                            &&& final(self).state == HandshakeState::AuthChallengeReceived
                            &&& final(self).auth_challenge matches Some(ac) && ac.wf()
                                && ac.challenge@ == var_payload(bytes@, false).take(32)
                                && ac.methods@ == recognized_methods(
                                auth_codes(var_payload(bytes@, false)),
                            )
                        } else {
                            final(self).state == HandshakeState::Failed(
                                HandshakeError::AuthChallengeParseError(
                                    CellError::Protocol(ProtocolError::NoSupportedMethods),
                                ),
                            )
                        }
                    } else {
                        final(self).state == HandshakeState::Failed(
                            HandshakeError::AuthChallengeParseError(
                                CellError::Format(FormatError::Truncated),
                            ),
                        )
                    }
                } else {
                    final(self).state == HandshakeState::Failed(
                        HandshakeError::AuthChallengeParseError(
                            CellError::Protocol(ProtocolError::UnexpectedCellType),
                        ),
                    )
                }
            } else {
                final(self).state == HandshakeState::Failed(
                    HandshakeError::AuthChallengeParseError(
                        CellError::Format(crate::variable_cell::variable_decode_err(bytes@, false)),
                    ),
                )
            },
    {
        let mut rdr = ByteCursor::new(bytes);
        match AuthChallengeCell::from_reader(&mut rdr) {
            Ok(ac) => {
                self.auth_challenge = Some(ac);
                self.state = HandshakeState::AuthChallengeReceived;
            },
            Err(e) => {
                self.state = HandshakeState::Failed(HandshakeError::AuthChallengeParseError(e));
            },
        }
    }

    /// Consumes the bytes read for the NETINFO cell. A fixed cell whose
    /// command is Netinfo completes the handshake; any failure becomes
    /// `Failed(NetInfoParseError)` carrying it. The payload stays unparsed.
    pub fn on_net_info(&mut self, bytes: Vec<u8>)
        requires
            old(self).state == HandshakeState::AuthChallengeReceived,
        ensures
            final(self).negotiated_version == old(self).negotiated_version,
            final(self).certs == old(self).certs,
            final(self).auth_challenge == old(self).auth_challenge,
            if bytes@.len() < 514 {
                final(self).state == HandshakeState::Failed(
                    HandshakeError::NetInfoParseError(CellError::Format(FormatError::Truncated)),
                )
            } else if fixed_command_of_byte(bytes@[4]) is None {
                final(self).state == HandshakeState::Failed(
                    HandshakeError::NetInfoParseError(
                        CellError::Format(FormatError::InvalidCommand),
                    ),
                )
            } else if fixed_command_of_byte(bytes@[4]) != Some(FixedCommand::Netinfo) {
                final(self).state == HandshakeState::Failed(
                    HandshakeError::NetInfoParseError(
                        CellError::Protocol(ProtocolError::UnexpectedCellType),
                    ),
                )
            } else {
                final(self).state == HandshakeState::Authenticated
            },
    {
        let mut rdr = ByteCursor::new(bytes);
        match NetInfoCell::from_reader(&mut rdr) {
            Ok(_nc) => {
                self.state = HandshakeState::Authenticated;
            },
            Err(e) => {
                self.state = HandshakeState::Failed(HandshakeError::NetInfoParseError(e));
            },
        }
    }

    /// Records a failure of the underlying stream, from any state.
    pub fn on_transport_error(&mut self)
        ensures
            final(self).state == HandshakeState::Failed(HandshakeError::TransportError),
            final(self).negotiated_version == old(self).negotiated_version,
            final(self).certs == old(self).certs,
            final(self).auth_challenge == old(self).auth_challenge,
    {
        self.state = HandshakeState::Failed(HandshakeError::TransportError);
    }

    /// The whole handshake's result: the established link when every phase
    /// passed, or the originating error of the phase that failed.
    pub fn finish(self) -> (r: Result<TorConnection, HandshakeError>)
        requires
            self.state == HandshakeState::Authenticated || self.state matches
                HandshakeState::Failed(_),
        ensures
            match r {
                Ok(conn) => {
                    &&& self.state == HandshakeState::Authenticated
                    &&& conn.negotiated_version == LINK_PROTOCOL_VERSION
                },
                Err(e) => self.state == HandshakeState::Failed(e),
            },
    {
        match self.state {
            HandshakeState::Authenticated => Ok(
                TorConnection { negotiated_version: LINK_PROTOCOL_VERSION },
            ),
            HandshakeState::Failed(e) => Err(e),
            _ => Err(HandshakeError::TransportError),
        }
    }
}

/// A peer VERSIONS payload that does not advertise the required version
/// halts the handshake: the session fails with `UnsupportedVersion`, a state
/// whose only action is to stop, so no Certs-phase read is ever asked for.
pub proof fn lemma_unsupported_version_halts(s: HandshakeState)
    requires
        s == HandshakeState::Failed(HandshakeError::UnsupportedVersion),
    ensures
        spec_next_action(s) == HandshakeAction::Stop,
{
}

} // verus!
