use vstd::prelude::*;

use crate::cursor::{be16, be16_hi, be16_lo, ByteCursor};
use crate::errors::FormatError;
use crate::fixed_cell::push_all;

verus! {

/// Circuit-id width before version negotiation.
pub const CIRCID_LEN_LEGACY: usize = 2;

/// Circuit-id width after version negotiation.
pub const CIRCID_LEN_NEW: usize = 4;

/// Commands a variable-length cell may carry.
#[derive(Clone, Copy, Debug, PartialEq, Eq, Structural)]
pub enum VariableCommand {
    Versions,
    VPadding,
    Certs,
    AuthChallenge,
    Authenticate,
    Authorize,
}

/// The wire byte of each variable-cell command.
pub open spec fn variable_command_byte(c: VariableCommand) -> u8 {
    match c {
        VariableCommand::Versions => 7,
        VariableCommand::VPadding => 128,
        VariableCommand::Certs => 129,
        VariableCommand::AuthChallenge => 130,
        VariableCommand::Authenticate => 131,
        VariableCommand::Authorize => 132,
    }
}

/// The variable-cell command a wire byte stands for, if any.
pub open spec fn variable_command_of_byte(b: u8) -> Option<VariableCommand> {
    match b {
        7u8 => Some(VariableCommand::Versions),
        128u8 => Some(VariableCommand::VPadding),
        129u8 => Some(VariableCommand::Certs),
        130u8 => Some(VariableCommand::AuthChallenge),
        131u8 => Some(VariableCommand::Authenticate),
        132u8 => Some(VariableCommand::Authorize),
        _ => None,
    }
}

impl VariableCommand {
    /// Maps a command byte to its command, or `UnknownCommand` for any byte
    /// outside the variable-cell set.
    pub fn from_u8(b: u8) -> (r: Result<VariableCommand, FormatError>)
        ensures
            match r {
                Ok(c) => variable_command_of_byte(b) == Some(c),
                Err(e) => variable_command_of_byte(b) is None && e == FormatError::UnknownCommand,
            },
    {
        match b {
            7u8 => Ok(VariableCommand::Versions),
            128u8 => Ok(VariableCommand::VPadding),
            129u8 => Ok(VariableCommand::Certs),
            130u8 => Ok(VariableCommand::AuthChallenge),
            131u8 => Ok(VariableCommand::Authenticate),
            132u8 => Ok(VariableCommand::Authorize),
            _ => Err(FormatError::UnknownCommand),
        }
    }

    /// The wire byte of this command.
    pub fn to_u8(&self) -> (b: u8)
        ensures
            b == variable_command_byte(*self),
            variable_command_of_byte(b) == Some(*self),
    {
        match self {
            VariableCommand::Versions => 7,
            VariableCommand::VPadding => 128,
            VariableCommand::Certs => 129,
            VariableCommand::AuthChallenge => 130,
            VariableCommand::Authenticate => 131,
            VariableCommand::Authorize => 132,
        }
    }
}

/// A variable-length framed cell: circuit id of 2 bytes (legacy, before
/// version negotiation) or 4 bytes, one command byte, an explicit big-endian
/// 16-bit length, and a payload of exactly that many bytes.
#[derive(Clone, Debug)]
pub struct VariableCell {
    pub circuit_id: Vec<u8>,
    pub command: VariableCommand,
    pub length: u16,
    pub payload: Vec<u8>,
}

/// Circuit-id width in bytes for the given phase.
pub open spec fn var_idl(legacy: bool) -> int {
    if legacy {
        2
    } else {
        4
    }
}

/// The declared payload length of an encoded variable cell.
pub open spec fn var_len(bytes: Seq<u8>, legacy: bool) -> u16 {
    be16(bytes[var_idl(legacy) + 1], bytes[var_idl(legacy) + 2])
}

/// Whether `bytes` starts with a decodable variable cell of the given
/// circuit-id width: a full header, a recognized command byte, and at least
/// as many payload bytes as the header declares.
pub open spec fn variable_cell_parses(bytes: Seq<u8>, legacy: bool) -> bool {
    &&& bytes.len() >= var_idl(legacy) + 3
    &&& variable_command_of_byte(bytes[var_idl(legacy)]) is Some
    &&& bytes.len() >= var_idl(legacy) + 3 + var_len(bytes, legacy)
}

/// The circuit id of an encoded variable cell.
pub open spec fn var_cid(bytes: Seq<u8>, legacy: bool) -> Seq<u8> {
    bytes.take(var_idl(legacy))
}

/// The payload of an encoded variable cell.
pub open spec fn var_payload(bytes: Seq<u8>, legacy: bool) -> Seq<u8> {
    bytes.subrange(var_idl(legacy) + 3, var_idl(legacy) + 3 + var_len(bytes, legacy))
}

/// The bytes after an encoded variable cell.
pub open spec fn var_rest(bytes: Seq<u8>, legacy: bool) -> Seq<u8> {
    bytes.skip(var_idl(legacy) + 3 + var_len(bytes, legacy))
}

/// The error decoding yields when `bytes` does not start with a variable
/// cell: `Truncated` for a short header or payload, `UnknownCommand` for a
/// bad command byte. The command byte is judged as soon as it is read, so it
/// wins over missing length bytes.
pub open spec fn variable_decode_err(bytes: Seq<u8>, legacy: bool) -> FormatError {
    if bytes.len() < var_idl(legacy) + 1 {
        FormatError::Truncated
    } else if variable_command_of_byte(bytes[var_idl(legacy)]) is None {
        FormatError::UnknownCommand
    } else {
        FormatError::Truncated
    }
}

impl VariableCell {
    /// Structural invariant: a 2- or 4-byte circuit id, and a payload whose
    /// byte length equals the length field exactly.
    pub open spec fn wf(&self) -> bool {
        &&& (self.circuit_id@.len() == 2 || self.circuit_id@.len() == 4)
        &&& self.payload@.len() == self.length
    }

    /// The exact wire image of this cell.
    pub open spec fn spec_bytes(&self) -> Seq<u8> {
        self.circuit_id@ + seq![
            variable_command_byte(self.command),
            be16_hi(self.length),
            be16_lo(self.length),
        ] + self.payload@
    }

    /// Builds a cell over the given payload. A circuit id that is neither 2
    /// nor 4 bytes is refused with `CircuitIdLengthInvalid`; a payload over
    /// the 16-bit length range with `PayloadTooLarge`.
    pub fn new(circuit_id: Vec<u8>, cmd: VariableCommand, payload: Vec<u8>) -> (r: Result<
        VariableCell,
        FormatError,
    >)
        ensures
            match r {
                Ok(c) => {
                    &&& (circuit_id@.len() == 2 || circuit_id@.len() == 4)
                    &&& payload@.len() <= 0xffff
                    &&& c.wf()
                    &&& c.circuit_id@ == circuit_id@
                    &&& c.command == cmd
                    &&& c.length == payload@.len()
                    &&& c.payload@ == payload@
                },
                Err(e) => {
                    ||| (circuit_id@.len() != 2 && circuit_id@.len() != 4
                        && e == FormatError::CircuitIdLengthInvalid)
                    ||| ((circuit_id@.len() == 2 || circuit_id@.len() == 4)
                        && payload@.len() > 0xffff && e == FormatError::PayloadTooLarge)
                },
            },
    {
        if circuit_id.len() != CIRCID_LEN_LEGACY && circuit_id.len() != CIRCID_LEN_NEW {
            return Err(FormatError::CircuitIdLengthInvalid);
        }
        if payload.len() > 0xffff {
            return Err(FormatError::PayloadTooLarge);
        }
        let length = payload.len() as u16;
        Ok(VariableCell { circuit_id, command: cmd, length, payload })
    }

    /// Encodes the cell to its wire image: id, command byte, big-endian
    /// length, payload.
    pub fn to_bytes(&self) -> (r: Vec<u8>)
        requires
            self.wf(),
        ensures
            r@ == self.spec_bytes(),
            r@.len() == self.circuit_id@.len() + 3 + self.payload@.len(),
    {
        let mut out: Vec<u8> = Vec::new();
        push_all(&mut out, &self.circuit_id);
        out.push(self.command.to_u8());
        out.push((self.length / 256) as u8);
        out.push((self.length % 256) as u8);
        push_all(&mut out, &self.payload);
        proof {
            assert(out@ =~= self.spec_bytes());
        }
        out
    }

    /// Reads one variable cell from the byte source: 2 or 4 id bytes per
    /// `use_legacy_circid_len`, a command byte, a big-endian length, then
    /// exactly that many payload bytes. Short reads fail with `Truncated`,
    /// an unrecognized command byte with `UnknownCommand`. On success the
    /// bytes consumed are exactly the cell's wire image.
    pub fn from_reader(rdr: &mut ByteCursor, use_legacy_circid_len: bool) -> (r: Result<
        VariableCell,
        FormatError,
    >)
        requires
            old(rdr).wf(),
        ensures
            final(rdr).wf(),
            match r {
                Ok(c) => {
                    &&& variable_cell_parses(old(rdr).remaining_bytes(), use_legacy_circid_len)
                    &&& c.wf()
                    &&& c.circuit_id@.len() == var_idl(use_legacy_circid_len)
                    &&& c.circuit_id@ == var_cid(old(rdr).remaining_bytes(), use_legacy_circid_len)
                    &&& Some(c.command) == variable_command_of_byte(
                        old(rdr).remaining_bytes()[var_idl(use_legacy_circid_len)],
                    )
                    &&& c.length == var_len(old(rdr).remaining_bytes(), use_legacy_circid_len)
                    &&& c.payload@ == var_payload(
                        old(rdr).remaining_bytes(),
                        use_legacy_circid_len,
                    )
                    &&& final(rdr).remaining_bytes() == var_rest(
                        old(rdr).remaining_bytes(),
                        use_legacy_circid_len,
                    )
                    &&& old(rdr).remaining_bytes() == c.spec_bytes()
                        + final(rdr).remaining_bytes()
                },
                Err(e) => {
                    &&& !variable_cell_parses(old(rdr).remaining_bytes(), use_legacy_circid_len)
                    &&& e == variable_decode_err(old(rdr).remaining_bytes(), use_legacy_circid_len)
                },
            },
    {
        let idl: usize = if use_legacy_circid_len {
            CIRCID_LEN_LEGACY
        } else {
            CIRCID_LEN_NEW
        };
        let circ_id = match rdr.read_bytes(idl) {
            Ok(v) => v,
            Err(e) => {
                return Err(e);
            },
        };
        let cmd_byte = match rdr.read_byte() {
            Ok(b) => b,
            Err(e) => {
                return Err(e);
            },
        };
        let cmd = match VariableCommand::from_u8(cmd_byte) {
            Ok(c) => c,
            Err(e) => {
                return Err(e);
            },
        };
        let length = match rdr.read_u16_be() {
            Ok(v) => v,
            Err(e) => {
                return Err(e);
            },
        };
        let payload = match rdr.read_bytes(length as usize) {
            Ok(v) => v,
            Err(e) => {
                proof {
                    let bytes = old(rdr).remaining_bytes();
                    let idli = var_idl(use_legacy_circid_len);
                    assert(rdr.remaining_bytes() =~= bytes.skip(idli + 3));
                    assert(length == var_len(bytes, use_legacy_circid_len));
                    assert(bytes.len() < idli + 3 + var_len(bytes, use_legacy_circid_len));
                }
                return Err(e);
            },
        };
        let cell = VariableCell { circuit_id: circ_id, command: cmd, length, payload };
        proof {
            let bytes = old(rdr).remaining_bytes();
            let idli = var_idl(use_legacy_circid_len);
            assert(cell.circuit_id@ =~= var_cid(bytes, use_legacy_circid_len));
            assert(cell.payload@ =~= var_payload(bytes, use_legacy_circid_len));
            assert(rdr.remaining_bytes() =~= var_rest(bytes, use_legacy_circid_len));
            crate::cursor::lemma_be16_bytes(bytes[idli + 1], bytes[idli + 2]);
            assert(bytes =~= cell.spec_bytes() + rdr.remaining_bytes());
        }
        Ok(cell)
    }
}

/// Round trip, decode side: a byte sequence that decodes as a variable cell
/// is exactly the re-encoding of what was decoded, followed by the rest.
pub proof fn lemma_variable_cell_round_trip(bytes: Seq<u8>, legacy: bool)
    requires
        variable_cell_parses(bytes, legacy),
    ensures
        bytes =~= var_cid(bytes, legacy) + seq![
            bytes[var_idl(legacy)],
            be16_hi(var_len(bytes, legacy)),
            be16_lo(var_len(bytes, legacy)),
        ] + var_payload(bytes, legacy) + var_rest(bytes, legacy),
{
    crate::cursor::lemma_be16_bytes(bytes[var_idl(legacy) + 1], bytes[var_idl(legacy) + 2]);
}

/// Round trip, encode side: the wire image of any well-formed cell decodes
/// back to the same cell, whatever bytes follow it.
pub proof fn lemma_variable_cell_encode_decode(c: VariableCell, rest: Seq<u8>, legacy: bool)
    requires
        c.wf(),
        c.circuit_id@.len() == var_idl(legacy),
    ensures
        variable_cell_parses(c.spec_bytes() + rest, legacy),
        var_cid(c.spec_bytes() + rest, legacy) == c.circuit_id@,
        variable_command_of_byte((c.spec_bytes() + rest)[var_idl(legacy)]) == Some(c.command),
        var_len(c.spec_bytes() + rest, legacy) == c.length,
        var_payload(c.spec_bytes() + rest, legacy) == c.payload@,
        var_rest(c.spec_bytes() + rest, legacy) == rest,
{
    let bytes = c.spec_bytes() + rest;
    let idl = var_idl(legacy);
    assert(bytes[idl] == variable_command_byte(c.command));
    assert(bytes[idl + 1] == be16_hi(c.length));
    assert(bytes[idl + 2] == be16_lo(c.length));
    crate::cursor::lemma_be16_split(c.length);
    assert(var_len(bytes, legacy) == c.length);
    assert(var_cid(bytes, legacy) =~= c.circuit_id@);
    assert(var_payload(bytes, legacy) =~= c.payload@);
    assert(var_rest(bytes, legacy) =~= rest);
}

} // verus!
