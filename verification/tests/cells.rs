use minionion::auth_challenge::{AuthChallengeCell, AuthMethods};
use minionion::certs::{Cert, CertsCell};
use minionion::cursor::ByteCursor;
use minionion::errors::{CellError, FormatError, ProtocolError};
use minionion::fixed_cell::{FixedCell, FixedCommand};
use minionion::net_info::NetInfoCell;
use minionion::variable_cell::{VariableCell, VariableCommand};
use minionion::versions;

fn fixed_wire(cmd_byte: u8) -> Vec<u8> {
    let mut bytes = vec![9u8, 8, 7, 6, cmd_byte];
    for i in 0..509u32 {
        bytes.push((i % 251) as u8);
    }
    bytes
}

#[test]
fn fixed_cell_round_trip_all_commands() {
    for cmd_byte in [0u8, 1, 2, 3, 4, 5, 6, 8, 9, 10, 11, 12] {
        let bytes = fixed_wire(cmd_byte);
        let cell = FixedCell::from_bytes(&bytes).unwrap();
        assert_eq!(cell.to_bytes(), bytes);
    }
}

#[test]
fn fixed_cell_rejects_command_seven_and_others() {
    for cmd_byte in [7u8, 13, 127, 255] {
        let bytes = fixed_wire(cmd_byte);
        assert_eq!(FixedCell::from_bytes(&bytes).unwrap_err(), FormatError::InvalidCommand);
    }
}

#[test]
fn fixed_cell_from_bytes_needs_exactly_514() {
    assert_eq!(FixedCell::from_bytes(&vec![0u8; 513]).unwrap_err(), FormatError::Truncated);
    assert_eq!(FixedCell::from_bytes(&vec![0u8; 515]).unwrap_err(), FormatError::Truncated);
}

#[test]
fn fixed_cell_encode_is_514_for_any_payload_length() {
    for len in [0usize, 1, 100, 508, 509] {
        let cell = FixedCell::new(
            vec![0xabu8; len],
            None,
            FixedCommand::Padding,
            vec![0u8, 0, 0, 1],
        )
        .unwrap();
        assert_eq!(cell.to_bytes().len(), 514);
    }
}

#[test]
fn fixed_cell_pads_with_chosen_byte() {
    let cell = FixedCell::new(
        vec![1u8, 2, 3],
        Some(0xee),
        FixedCommand::Relay,
        vec![0u8, 0, 0, 1],
    )
    .unwrap();
    let bytes = cell.to_bytes();
    assert_eq!(&bytes[5..8], &[1, 2, 3]);
    assert!(bytes[8..].iter().all(|b| *b == 0xee));
}

#[test]
fn fixed_cell_payload_too_large() {
    let r = FixedCell::new(vec![0u8; 510], None, FixedCommand::Padding, vec![0u8; 4]);
    assert_eq!(r.unwrap_err(), FormatError::PayloadTooLarge);
}

#[test]
fn fixed_cell_from_reader_truncated() {
    let mut rdr = ByteCursor::new(vec![0u8; 100]);
    assert_eq!(FixedCell::from_reader(&mut rdr).unwrap_err(), FormatError::Truncated);
}

#[test]
fn variable_cell_round_trip_all_commands() {
    for cmd_byte in [7u8, 128, 129, 130, 131, 132] {
        for id in [vec![1u8, 2], vec![1u8, 2, 3, 4]] {
            let legacy = id.len() == 2;
            let mut bytes = id.clone();
            bytes.push(cmd_byte);
            bytes.extend_from_slice(&[0, 3, 0xaa, 0xbb, 0xcc]);
            let mut rdr = ByteCursor::new(bytes.clone());
            let cell = VariableCell::from_reader(&mut rdr, legacy).unwrap();
            assert_eq!(rdr.remaining(), 0);
            assert_eq!(cell.to_bytes(), bytes);
        }
    }
}

#[test]
fn variable_cell_legacy_width_reads_two_id_bytes() {
    let bytes = vec![1u8, 2, 7, 0, 1, 0xff];
    let mut rdr = ByteCursor::new(bytes);
    let cell = VariableCell::from_reader(&mut rdr, true).unwrap();
    assert_eq!(cell.circuit_id, vec![1, 2]);
    assert_eq!(cell.payload, vec![0xff]);
}

#[test]
fn variable_cell_new_width_reads_four_id_bytes() {
    let bytes = vec![1u8, 2, 3, 4, 129, 0, 1, 0xff];
    let mut rdr = ByteCursor::new(bytes);
    let cell = VariableCell::from_reader(&mut rdr, false).unwrap();
    assert_eq!(cell.circuit_id, vec![1, 2, 3, 4]);
    assert_eq!(cell.payload, vec![0xff]);
}

#[test]
fn variable_cell_mismatched_width_goes_wrong() {
    // A cell framed with a 4-byte id, read with the legacy 2-byte width:
    // the third id byte lands where the command byte is expected.
    let bytes = vec![0u8, 0, 0, 1, 129, 0, 1, 0xff];
    let mut rdr = ByteCursor::new(bytes.clone());
    assert_eq!(
        VariableCell::from_reader(&mut rdr, true).unwrap_err(),
        FormatError::UnknownCommand
    );
    // A legacy-framed cell read with the 4-byte width puts a payload byte
    // where the command byte is expected.
    let bytes = vec![0u8, 0, 7, 0, 2];
    let mut rdr = ByteCursor::new(bytes);
    assert_eq!(
        VariableCell::from_reader(&mut rdr, false).unwrap_err(),
        FormatError::UnknownCommand
    );
    // A legacy-framed cell cut off mid-header runs out of bytes.
    let bytes = vec![0u8, 0];
    let mut rdr = ByteCursor::new(bytes);
    assert_eq!(
        VariableCell::from_reader(&mut rdr, false).unwrap_err(),
        FormatError::Truncated
    );
}

#[test]
fn variable_cell_truncated_payload() {
    let bytes = vec![0u8, 0, 7, 0, 5, 1, 2];
    let mut rdr = ByteCursor::new(bytes);
    assert_eq!(
        VariableCell::from_reader(&mut rdr, true).unwrap_err(),
        FormatError::Truncated
    );
}

#[test]
fn variable_cell_circuit_id_length_checked() {
    let r = VariableCell::new(vec![1u8, 2, 3], VariableCommand::Versions, vec![]);
    assert_eq!(r.unwrap_err(), FormatError::CircuitIdLengthInvalid);
}

#[test]
fn variable_cell_payload_too_large() {
    let r = VariableCell::new(vec![1u8, 2], VariableCommand::Versions, vec![0u8; 65536]);
    assert_eq!(r.unwrap_err(), FormatError::PayloadTooLarge);
}

#[test]
fn versions_cell_literal_bytes() {
    let cell = versions::create_handshake_versions_cell();
    assert_eq!(cell.to_bytes(), vec![0, 0, 7, 0, 2, 0, 5]);
}

#[test]
fn versions_support_check() {
    let supported = VariableCell::new(
        vec![0u8, 0],
        VariableCommand::Versions,
        vec![0, 3, 0, 5],
    )
    .unwrap();
    assert!(versions::is_supported(&supported));
    let unsupported = VariableCell::new(
        vec![0u8, 0],
        VariableCommand::Versions,
        vec![0, 3, 0, 4],
    )
    .unwrap();
    assert!(!versions::is_supported(&unsupported));
    // An odd trailing byte belongs to no version.
    let trailing = VariableCell::new(vec![0u8, 0], VariableCommand::Versions, vec![0, 3, 5]).unwrap();
    assert!(!versions::is_supported(&trailing));
}

#[test]
fn read_handshake_versions_cell_uses_legacy_width() {
    let mut rdr = ByteCursor::new(vec![0u8, 0, 7, 0, 2, 0, 5]);
    let cell = versions::read_handshake_versions_cell(&mut rdr).unwrap();
    assert_eq!(cell.circuit_id.len(), 2);
    assert_eq!(cell.payload, vec![0, 5]);
}

#[test]
fn certs_payload_count_zero_is_empty_chain() {
    let cc = CertsCell::parse(vec![0u8]).unwrap();
    assert!(cc.certs.is_empty());
}

#[test]
fn certs_payload_empty_is_truncated() {
    assert_eq!(CertsCell::parse(vec![]).unwrap_err(), FormatError::Truncated);
}

#[test]
fn certs_entry_length_overrun_is_truncated() {
    // One entry of declared length 10 with only 2 body bytes present.
    let payload = vec![1u8, 1, 0, 10, 0xde, 0xad];
    assert_eq!(CertsCell::parse(payload).unwrap_err(), FormatError::Truncated);
}

#[test]
fn certs_unknown_cert_type() {
    let payload = vec![1u8, 99, 0, 0];
    assert_eq!(CertsCell::parse(payload).unwrap_err(), FormatError::UnknownCertType);
}

#[test]
fn certs_x509_entry_keeps_der_bytes() {
    let der = vec![0x30u8, 0x03, 0x02, 0x01, 0x05];
    let mut payload = vec![1u8, 2, 0, der.len() as u8];
    payload.extend_from_slice(&der);
    let cc = CertsCell::parse(payload).unwrap();
    assert_eq!(cc.certs.len(), 1);
    match &cc.certs[0] {
        Cert::X509 { der: held, .. } => assert_eq!(held, &der),
        _ => panic!("expected an X.509 entry"),
    }
}

fn tor_cert_body(ext: &[u8], ext_count: u8) -> Vec<u8> {
    let mut body = vec![1u8, 4];
    body.extend_from_slice(&[0, 0, 0, 10]);
    body.push(1);
    body.extend_from_slice(&[0x11; 32]);
    body.push(ext_count);
    body.extend_from_slice(ext);
    body.extend_from_slice(&[0x22; 64]);
    body
}

fn certs_payload_of(body: &[u8]) -> Vec<u8> {
    let mut payload = vec![1u8, 4];
    payload.push((body.len() >> 8) as u8);
    payload.push((body.len() & 0xff) as u8);
    payload.extend_from_slice(body);
    payload
}

#[test]
fn tor_cert_without_extensions_parses() {
    let body = tor_cert_body(&[], 0);
    let cc = CertsCell::parse(certs_payload_of(&body)).unwrap();
    match &cc.certs[0] {
        Cert::TorFormat { cert, .. } => {
            assert_eq!(cert.cert_type, 4);
            assert_eq!(cert.expiration_date, 10);
            assert_eq!(cert.certified_key, vec![0x11; 32]);
            assert!(cert.extensions.is_empty());
            assert_eq!(cert.signature, vec![0x22; 64]);
        },
        _ => panic!("expected a Tor-format entry"),
    }
}

#[test]
fn tor_cert_with_both_extension_kinds() {
    // A signed-with-ed25519-key extension (type 4, affects-validation set),
    // then a cross-certificate extension (type 7) with a 2-byte signature.
    let mut ext = vec![0u8, 32, 4, 1];
    ext.extend_from_slice(&[0x33; 32]);
    let mut cross_body = vec![0x44u8; 32].to_vec();
    cross_body.extend_from_slice(&[0, 0, 1, 0]);
    cross_body.push(2);
    cross_body.extend_from_slice(&[0x55, 0x66]);
    ext.push(0);
    ext.push(cross_body.len() as u8);
    ext.push(7);
    ext.push(0);
    ext.extend_from_slice(&cross_body);
    let body = tor_cert_body(&ext, 2);
    let cc = CertsCell::parse(certs_payload_of(&body)).unwrap();
    match &cc.certs[0] {
        Cert::TorFormat { cert, .. } => {
            assert_eq!(cert.extensions.len(), 2);
            match &cert.extensions[0] {
                minionion::certs::CertExtension::SignedWithEd25519Key(e) => {
                    assert!(e.affects_validation);
                    assert_eq!(e.key, vec![0x33; 32]);
                },
                _ => panic!("expected a signed-with-key extension first"),
            }
            match &cert.extensions[1] {
                minionion::certs::CertExtension::RSAEd25519Cross(e) => {
                    assert_eq!(e.ed25519_key, vec![0x44; 32]);
                    assert_eq!(e.expiration_date, 256);
                    assert_eq!(e.signature, vec![0x55, 0x66]);
                },
                _ => panic!("expected a cross-certificate extension second"),
            }
        },
        _ => panic!("expected a Tor-format entry"),
    }
}

#[test]
fn tor_cert_bad_version() {
    let mut body = tor_cert_body(&[], 0);
    body[0] = 2;
    assert_eq!(
        CertsCell::parse(certs_payload_of(&body)).unwrap_err(),
        FormatError::InvalidCertVersion
    );
}

#[test]
fn tor_cert_unknown_extension_type() {
    let ext = vec![0u8, 0, 9, 0];
    let body = tor_cert_body(&ext, 1);
    assert_eq!(
        CertsCell::parse(certs_payload_of(&body)).unwrap_err(),
        FormatError::UnknownExtensionType
    );
}

#[test]
fn extension_flags_unreserved_bit_rejected() {
    // Flags byte 2 sets a bit beyond affects-validation.
    let mut ext = vec![0u8, 32, 4, 2];
    ext.extend_from_slice(&[0x33; 32]);
    let body = tor_cert_body(&ext, 1);
    assert_eq!(
        CertsCell::parse(certs_payload_of(&body)).unwrap_err(),
        FormatError::InvalidExtensionFlags
    );
}

#[test]
fn certs_cell_from_reader_wrong_command() {
    let cell = VariableCell::new(vec![0u8; 4], VariableCommand::VPadding, vec![0]).unwrap();
    let mut rdr = ByteCursor::new(cell.to_bytes());
    assert_eq!(
        CertsCell::from_reader(&mut rdr).unwrap_err(),
        CellError::Protocol(ProtocolError::UnexpectedCellType)
    );
}

fn auth_challenge_payload(codes: &[u16]) -> Vec<u8> {
    let mut payload = vec![0x77u8; 32];
    payload.push((codes.len() >> 8) as u8);
    payload.push((codes.len() & 0xff) as u8);
    for c in codes {
        payload.push((c >> 8) as u8);
        payload.push((c & 0xff) as u8);
    }
    payload
}

fn auth_challenge_cell(codes: &[u16]) -> VariableCell {
    VariableCell::new(
        vec![0u8; 4],
        VariableCommand::AuthChallenge,
        auth_challenge_payload(codes),
    )
    .unwrap()
}

#[test]
fn auth_challenge_no_methods_fails() {
    let r = AuthChallengeCell::parse(&auth_challenge_cell(&[]));
    assert_eq!(
        r.unwrap_err(),
        CellError::Protocol(ProtocolError::NoSupportedMethods)
    );
}

#[test]
fn auth_challenge_only_unrecognized_fails() {
    let r = AuthChallengeCell::parse(&auth_challenge_cell(&[2, 99, 700]));
    assert_eq!(
        r.unwrap_err(),
        CellError::Protocol(ProtocolError::NoSupportedMethods)
    );
}

#[test]
fn auth_challenge_keeps_exactly_recognized_subset() {
    let ac = AuthChallengeCell::parse(&auth_challenge_cell(&[2, 1, 99, 3, 1])).unwrap();
    assert_eq!(ac.challenge, vec![0x77; 32]);
    assert_eq!(
        ac.methods,
        vec![
            AuthMethods::RsaSha256TlsSecret,
            AuthMethods::Ed25519Sha256Rfc5705,
            AuthMethods::RsaSha256TlsSecret,
        ]
    );
}

#[test]
fn auth_challenge_truncated_codes() {
    let mut payload = auth_challenge_payload(&[]);
    payload[33] = 3;
    let cell = VariableCell::new(vec![0u8; 4], VariableCommand::AuthChallenge, payload).unwrap();
    assert_eq!(
        AuthChallengeCell::parse(&cell).unwrap_err(),
        CellError::Format(FormatError::Truncated)
    );
}

#[test]
fn auth_challenge_from_reader_round() {
    let cell = auth_challenge_cell(&[3]);
    let mut rdr = ByteCursor::new(cell.to_bytes());
    let ac = AuthChallengeCell::from_reader(&mut rdr).unwrap();
    assert_eq!(ac.methods, vec![AuthMethods::Ed25519Sha256Rfc5705]);
}

#[test]
fn auth_methods_from_u16_mapping() {
    assert_eq!(AuthMethods::from_u16(1), Some(AuthMethods::RsaSha256TlsSecret));
    assert_eq!(AuthMethods::from_u16(3), Some(AuthMethods::Ed25519Sha256Rfc5705));
    assert_eq!(AuthMethods::from_u16(2), None);
}

#[test]
fn net_info_accepts_netinfo_only() {
    let cell = FixedCell::new(vec![], None, FixedCommand::Netinfo, vec![0u8; 4]).unwrap();
    let mut rdr = ByteCursor::new(cell.to_bytes());
    let nc = NetInfoCell::from_reader(&mut rdr).unwrap();
    assert_eq!(nc.cell.command, FixedCommand::Netinfo);

    let wrong = FixedCell::new(vec![], None, FixedCommand::Padding, vec![0u8; 4]).unwrap();
    let mut rdr = ByteCursor::new(wrong.to_bytes());
    assert_eq!(
        NetInfoCell::from_reader(&mut rdr).unwrap_err(),
        CellError::Protocol(ProtocolError::UnexpectedCellType)
    );
}
