use minionion::errors::{CellError, FormatError, HandshakeError};
use minionion::fixed_cell::{FixedCell, FixedCommand};
use minionion::handshake::{HandshakeAction, HandshakeSession, HandshakeState};
use minionion::variable_cell::{VariableCell, VariableCommand};
use minionion::versions;

fn certs_cell_bytes() -> Vec<u8> {
    VariableCell::new(vec![0u8; 4], VariableCommand::Certs, vec![0])
        .unwrap()
        .to_bytes()
}

fn auth_challenge_cell_bytes() -> Vec<u8> {
    let mut payload = vec![0x77u8; 32];
    payload.extend_from_slice(&[0, 1, 0, 3]);
    VariableCell::new(vec![0u8; 4], VariableCommand::AuthChallenge, payload)
        .unwrap()
        .to_bytes()
}

fn net_info_cell_bytes() -> Vec<u8> {
    FixedCell::new(vec![], None, FixedCommand::Netinfo, vec![0u8; 4])
        .unwrap()
        .to_bytes()
}

#[test]
fn handshake_happy_path() {
    let mut s = HandshakeSession::new();
    assert_eq!(s.next_action(), HandshakeAction::SendVersions);
    let out = versions::create_handshake_versions_cell().to_bytes();
    assert_eq!(out, vec![0, 0, 7, 0, 2, 0, 5]);
    s.on_versions_sent();
    assert_eq!(s.next_action(), HandshakeAction::ReadPeerVersions);

    s.on_peer_versions(vec![0, 0, 7, 0, 4, 0, 4, 0, 5]);
    assert_eq!(s.state, HandshakeState::VersionsNegotiated);
    assert_eq!(s.negotiated_version, Some(5));
    assert_eq!(s.next_action(), HandshakeAction::ReadCerts);

    s.on_certs(certs_cell_bytes());
    assert_eq!(s.state, HandshakeState::CertsReceived);
    assert!(s.certs.as_ref().unwrap().certs.is_empty());
    assert_eq!(s.next_action(), HandshakeAction::ReadAuthChallenge);

    s.on_auth_challenge(auth_challenge_cell_bytes());
    assert_eq!(s.state, HandshakeState::AuthChallengeReceived);
    assert_eq!(s.auth_challenge.as_ref().unwrap().challenge, vec![0x77; 32]);
    assert_eq!(s.next_action(), HandshakeAction::ReadNetInfo);

    s.on_net_info(net_info_cell_bytes());
    assert_eq!(s.state, HandshakeState::Authenticated);
    assert_eq!(s.next_action(), HandshakeAction::Stop);

    let conn = s.finish().unwrap();
    assert_eq!(conn.negotiated_version, 5);
}

#[test]
fn unsupported_version_halts_before_certs() {
    let mut s = HandshakeSession::new();
    s.on_versions_sent();
    s.on_peer_versions(vec![0, 0, 7, 0, 2, 0, 4]);
    assert_eq!(
        s.state,
        HandshakeState::Failed(HandshakeError::UnsupportedVersion)
    );
    // The failed state asks for nothing further: no Certs-phase read follows.
    assert_eq!(s.next_action(), HandshakeAction::Stop);
    assert_eq!(s.finish().unwrap_err(), HandshakeError::UnsupportedVersion);
}

#[test]
fn malformed_peer_versions_fails_handshake() {
    let mut s = HandshakeSession::new();
    s.on_versions_sent();
    s.on_peer_versions(vec![0, 0, 7, 0]);
    assert_eq!(
        s.state,
        HandshakeState::Failed(HandshakeError::UnsupportedVersion)
    );
}

#[test]
fn bad_certs_cell_fails_with_certs_parse_error() {
    let mut s = HandshakeSession::new();
    s.on_versions_sent();
    s.on_peer_versions(vec![0, 0, 7, 0, 2, 0, 5]);
    // A VPadding cell where Certs was expected.
    let wrong = VariableCell::new(vec![0u8; 4], VariableCommand::VPadding, vec![])
        .unwrap()
        .to_bytes();
    s.on_certs(wrong);
    match s.state {
        HandshakeState::Failed(HandshakeError::CertsParseError(_)) => {},
        other => panic!("unexpected state {:?}", other),
    }
    assert_eq!(s.next_action(), HandshakeAction::Stop);
}

#[test]
fn bad_auth_challenge_fails_with_its_error() {
    let mut s = HandshakeSession::new();
    s.on_versions_sent();
    s.on_peer_versions(vec![0, 0, 7, 0, 2, 0, 5]);
    s.on_certs(certs_cell_bytes());
    // Too short for a nonce.
    let short = VariableCell::new(vec![0u8; 4], VariableCommand::AuthChallenge, vec![1, 2])
        .unwrap()
        .to_bytes();
    s.on_auth_challenge(short);
    match s.state {
        HandshakeState::Failed(HandshakeError::AuthChallengeParseError(_)) => {},
        other => panic!("unexpected state {:?}", other),
    }
}

#[test]
fn wrong_net_info_fails_with_its_error() {
    let mut s = HandshakeSession::new();
    s.on_versions_sent();
    s.on_peer_versions(vec![0, 0, 7, 0, 2, 0, 5]);
    s.on_certs(certs_cell_bytes());
    s.on_auth_challenge(auth_challenge_cell_bytes());
    let wrong = FixedCell::new(vec![], None, FixedCommand::Padding, vec![0u8; 4])
        .unwrap()
        .to_bytes();
    s.on_net_info(wrong);
    match s.state {
        HandshakeState::Failed(HandshakeError::NetInfoParseError(_)) => {},
        other => panic!("unexpected state {:?}", other),
    }
}

#[test]
fn external_x509_failure_fails_certs_phase() {
    let mut s = HandshakeSession::new();
    s.on_versions_sent();
    s.on_peer_versions(vec![0, 0, 7, 0, 2, 0, 5]);
    s.on_certs(certs_cell_bytes());
    assert_eq!(s.state, HandshakeState::CertsReceived);
    // The external collaborator reports a DER entry that does not parse.
    s.on_x509_parse_failed();
    assert_eq!(
        s.state,
        HandshakeState::Failed(HandshakeError::CertsParseError(CellError::Format(
            FormatError::X509ParseError
        )))
    );
    assert_eq!(s.next_action(), HandshakeAction::Stop);
}

#[test]
fn transport_error_is_terminal() {
    let mut s = HandshakeSession::new();
    s.on_versions_sent();
    s.on_transport_error();
    assert_eq!(
        s.state,
        HandshakeState::Failed(HandshakeError::TransportError)
    );
    assert_eq!(s.next_action(), HandshakeAction::Stop);
    assert_eq!(s.finish().unwrap_err(), HandshakeError::TransportError);
}
