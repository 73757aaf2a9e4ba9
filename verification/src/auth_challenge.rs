use vstd::prelude::*;

use crate::cursor::{be16, ByteCursor};
use crate::errors::{CellError, FormatError, ProtocolError};
use crate::variable_cell::{
    var_payload, var_rest, variable_cell_parses, variable_decode_err, variable_command_of_byte,
    VariableCell, VariableCommand,
};

verus! {

/// Byte length of an AUTH_CHALLENGE nonce.
pub const CHALLENGE_LEN: usize = 32;

/// Authentication methods this client recognizes. Codes outside this set
/// are ignored rather than rejected.
#[derive(Clone, Copy, Debug, PartialEq, Eq, Structural)]
pub enum AuthMethods {
    RsaSha256TlsSecret,
    Ed25519Sha256Rfc5705,
}

/// The method a wire code stands for, if recognized: 1 is
/// RSA-SHA256-TLSSecret, 3 is Ed25519-SHA256-RFC5705.
pub open spec fn auth_method_of_code(c: u16) -> Option<AuthMethods> {
    match c {
        1u16 => Some(AuthMethods::RsaSha256TlsSecret),
        3u16 => Some(AuthMethods::Ed25519Sha256Rfc5705),
        _ => None,
    }
}

impl AuthMethods {
    /// Maps a method code to its method, or nothing for an unrecognized
    /// code, which the parse then skips.
    pub fn from_u16(b: u16) -> (r: Option<AuthMethods>)
        ensures
            r == auth_method_of_code(b),
    {
        match b {
            1u16 => Some(AuthMethods::RsaSha256TlsSecret),
            3u16 => Some(AuthMethods::Ed25519Sha256Rfc5705),
            _ => None,
        }
    }
}

/// The declared method count of an AUTH_CHALLENGE payload.
pub open spec fn auth_method_count(p: Seq<u8>) -> u16 {
    be16(p[32], p[33])
}

/// Whether an AUTH_CHALLENGE payload holds its whole structure: a 32-byte
/// nonce, a method count, and that many 2-byte codes.
pub open spec fn auth_payload_parses(p: Seq<u8>) -> bool {
    &&& p.len() >= 34
    &&& p.len() >= 34 + 2 * (auth_method_count(p) as int)
}

/// The advertised method codes of an AUTH_CHALLENGE payload, in order.
pub open spec fn auth_codes(p: Seq<u8>) -> Seq<u16> {
    Seq::new(auth_method_count(p) as nat, |i: int| be16(p[34 + 2 * i], p[35 + 2 * i]))
}

/// The recognized subset of a code sequence, in advertised order.
pub open spec fn recognized_methods(codes: Seq<u16>) -> Seq<AuthMethods>
    decreases codes.len(),
{
    if codes.len() == 0 {
        Seq::empty()
    } else {
        let prefix = recognized_methods(codes.drop_last());
        match auth_method_of_code(codes.last()) {
            Some(m) => prefix.push(m),
            None => prefix,
        }
    }
}

/// The decoded AUTH_CHALLENGE cell: the 32-byte nonce and the non-empty
/// recognized subset of the advertised methods.
#[derive(Clone, Debug)]
pub struct AuthChallengeCell {
    pub challenge: Vec<u8>,
    pub methods: Vec<AuthMethods>,
}

impl AuthChallengeCell {
    /// Invariant: a 32-byte nonce, and at least one recognized method.
    pub open spec fn wf(&self) -> bool {
        &&& self.challenge@.len() == 32
        &&& self.methods@.len() > 0
    }

    /// Parses an AUTH_CHALLENGE payload out of a decoded variable cell:
    /// 32-byte nonce, 2-byte method count, then the codes. Unrecognized
    /// codes are skipped; when none is recognized, the parse fails with
    /// `NoSupportedMethods`.
    pub fn parse(cell: &VariableCell) -> (r: Result<AuthChallengeCell, CellError>)
        ensures
            match r {
                Ok(ac) => {
                    &&& auth_payload_parses(cell.payload@)
                    &&& ac.wf()
                    &&& ac.challenge@ == cell.payload@.take(32)
                    &&& ac.methods@ == recognized_methods(auth_codes(cell.payload@))
                },
                Err(CellError::Format(e)) => {
                    &&& !auth_payload_parses(cell.payload@)
                    &&& e == FormatError::Truncated
                },
                Err(CellError::Protocol(pe)) => {
                    &&& auth_payload_parses(cell.payload@)
                    &&& pe == ProtocolError::NoSupportedMethods
                    &&& recognized_methods(auth_codes(cell.payload@)).len() == 0
                },
            },
    {
        let ghost p = cell.payload@;
        let mut rdr = ByteCursor::new(crate::fixed_cell::clone_bytes(&cell.payload));
        let challenge = match rdr.read_bytes(CHALLENGE_LEN) {
            Ok(v) => v,
            Err(e) => {
                return Err(CellError::Format(e));
            },
        };
        let num_methods = match rdr.read_u16_be() {
            Ok(v) => v,
            Err(e) => {
                return Err(CellError::Format(e));
            },
        };
        let mut methods: Vec<AuthMethods> = Vec::new();
        let mut k: u16 = 0;
        proof {
            assert(rdr.remaining_bytes() =~= p.skip(34));
            assert(recognized_methods(auth_codes(p).take(0)) =~= Seq::<AuthMethods>::empty());
        }
        while k < num_methods
            invariant
                p == cell.payload@,
                rdr.wf(),
                k <= num_methods,
                num_methods == auth_method_count(p),
                p.len() >= 34,
                34 + 2 * (k as int) <= p.len(),
                rdr.remaining_bytes() == p.skip(34 + 2 * (k as int)),
                methods@ == recognized_methods(auth_codes(p).take(k as int)),
            decreases num_methods - k,
        {
            let code = match rdr.read_u16_be() {
                Ok(v) => v,
                Err(e) => {
                    proof {
                        assert(p.len() < 34 + 2 * (auth_method_count(p) as int));
                    }
                    return Err(CellError::Format(e));
                },
            };
            proof {
                assert(code == auth_codes(p)[k as int]);
                assert(auth_codes(p).take(k as int + 1).drop_last() =~= auth_codes(p).take(
                    k as int,
                ));
                assert(auth_codes(p).take(k as int + 1).last() == auth_codes(p)[k as int]);
                assert(rdr.remaining_bytes() =~= p.skip(34 + 2 * (k as int + 1)));
            }
            match AuthMethods::from_u16(code) {
                Some(m) => {
                    methods.push(m);
                },
                None => {},
            }
            k = k + 1;
        }
        proof {
            assert(auth_codes(p).take(num_methods as int) =~= auth_codes(p));
        }
        if methods.len() < 1 {
            return Err(CellError::Protocol(ProtocolError::NoSupportedMethods));
        }
        Ok(AuthChallengeCell { challenge, methods })
    }

    /// Reads a whole AUTH_CHALLENGE cell from the byte source: a variable
    /// cell with the 4-byte circuit-id width, whose command must be
    /// AuthChallenge, and whose payload parses as above.
    pub fn from_reader(rdr: &mut ByteCursor) -> (r: Result<AuthChallengeCell, CellError>)
        requires
            old(rdr).wf(),
        ensures
            final(rdr).wf(),
            match r {
                Ok(ac) => {
                    &&& variable_cell_parses(old(rdr).remaining_bytes(), false)
                    &&& variable_command_of_byte(old(rdr).remaining_bytes()[4]) == Some(
                        VariableCommand::AuthChallenge,
                    )
                    &&& auth_payload_parses(var_payload(old(rdr).remaining_bytes(), false))
                    &&& ac.wf()
                    &&& ac.challenge@ == var_payload(old(rdr).remaining_bytes(), false).take(32)
                    &&& ac.methods@ == recognized_methods(
                        auth_codes(var_payload(old(rdr).remaining_bytes(), false)),
                    )
                    &&& final(rdr).remaining_bytes() == var_rest(
                        old(rdr).remaining_bytes(),
                        false,
                    )
                },
                Err(CellError::Format(e)) => {
                    ||| (!variable_cell_parses(old(rdr).remaining_bytes(), false) && e
                        == variable_decode_err(old(rdr).remaining_bytes(), false))
                    ||| (variable_cell_parses(old(rdr).remaining_bytes(), false)
                        && variable_command_of_byte(old(rdr).remaining_bytes()[4]) == Some(
                        VariableCommand::AuthChallenge,
                    ) && !auth_payload_parses(var_payload(old(rdr).remaining_bytes(), false)) && e
                        == FormatError::Truncated)
                },
                Err(CellError::Protocol(pe)) => {
                    ||| (pe == ProtocolError::UnexpectedCellType && variable_cell_parses(
                        old(rdr).remaining_bytes(),
                        false,
                    ) && variable_command_of_byte(old(rdr).remaining_bytes()[4]) != Some(
                        VariableCommand::AuthChallenge,
                    ))
                    ||| (pe == ProtocolError::NoSupportedMethods && variable_cell_parses(
                        old(rdr).remaining_bytes(),
                        false,
                    ) && variable_command_of_byte(old(rdr).remaining_bytes()[4]) == Some(
                        VariableCommand::AuthChallenge,
                    ) && auth_payload_parses(var_payload(old(rdr).remaining_bytes(), false))
                        && recognized_methods(
                        auth_codes(var_payload(old(rdr).remaining_bytes(), false)),
                    ).len() == 0)
                },
            },
    {
        let cell = match VariableCell::from_reader(rdr, false) {
            Ok(c) => c,
            Err(e) => {
                return Err(CellError::Format(e));
            },
        };
        if !matches!(cell.command, VariableCommand::AuthChallenge) {
            return Err(CellError::Protocol(ProtocolError::UnexpectedCellType));
        }
        AuthChallengeCell::parse(&cell)
    }
}

} // verus!
