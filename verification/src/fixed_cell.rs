use vstd::prelude::*;

use crate::cursor::ByteCursor;
use crate::errors::FormatError;

verus! {

/// Payload length of a fixed-size cell on the wire.
pub const PAYLOAD_LEN: usize = 509;

/// Total wire length of a fixed-size cell.
pub const CELL_LEN: usize = 514;

/// Circuit-id width once a link protocol version has been negotiated.
pub const CIRCID_LEN: usize = 4;

/// Commands a fixed-size cell may carry. Byte 7 is deliberately absent:
/// it belongs to the variable-length VERSIONS cell.
#[derive(Clone, Copy, Debug, PartialEq, Eq, Structural)]
pub enum FixedCommand {
    Padding,
    Create,
    Created,
    Relay,
    Destroy,
    CreateFast,
    CreatedFast,
    Netinfo,
    RelayEarly,
    Create2,
    Created2,
    PaddingNegotiate,
}

/// The wire byte of each fixed-cell command.
pub open spec fn fixed_command_byte(c: FixedCommand) -> u8 {
    match c {
        FixedCommand::Padding => 0,
        FixedCommand::Create => 1,
        FixedCommand::Created => 2,
        FixedCommand::Relay => 3,
        FixedCommand::Destroy => 4,
        FixedCommand::CreateFast => 5,
        FixedCommand::CreatedFast => 6,
        FixedCommand::Netinfo => 8,
        FixedCommand::RelayEarly => 9,
        FixedCommand::Create2 => 10,
        FixedCommand::Created2 => 11,
        FixedCommand::PaddingNegotiate => 12,
    }
}

/// The fixed-cell command a wire byte stands for, if any.
pub open spec fn fixed_command_of_byte(b: u8) -> Option<FixedCommand> {
    match b {
        0u8 => Some(FixedCommand::Padding),
        1u8 => Some(FixedCommand::Create),
        2u8 => Some(FixedCommand::Created),
        3u8 => Some(FixedCommand::Relay),
        4u8 => Some(FixedCommand::Destroy),
        5u8 => Some(FixedCommand::CreateFast),
        6u8 => Some(FixedCommand::CreatedFast),
        8u8 => Some(FixedCommand::Netinfo),
        9u8 => Some(FixedCommand::RelayEarly),
        10u8 => Some(FixedCommand::Create2),
        11u8 => Some(FixedCommand::Created2),
        12u8 => Some(FixedCommand::PaddingNegotiate),
        _ => None,
    }
}

/// The byte a payload is padded with: the chosen byte, or 0x00.
pub open spec fn pad_of(padding_byte: Option<u8>) -> u8 {
    match padding_byte {
        Some(b) => b,
        None => 0u8,
    }
}

impl FixedCommand {
    /// Maps a command byte to its command, or `InvalidCommand` for any byte
    /// outside the fixed-cell set.
    pub fn from_u8(b: u8) -> (r: Result<FixedCommand, FormatError>)
        ensures
            match r {
                Ok(c) => fixed_command_of_byte(b) == Some(c),
                Err(e) => fixed_command_of_byte(b) is None && e == FormatError::InvalidCommand,
            },
    {
        match b {
            0u8 => Ok(FixedCommand::Padding),
            1u8 => Ok(FixedCommand::Create),
            2u8 => Ok(FixedCommand::Created),
            3u8 => Ok(FixedCommand::Relay),
            4u8 => Ok(FixedCommand::Destroy),
            5u8 => Ok(FixedCommand::CreateFast),
            6u8 => Ok(FixedCommand::CreatedFast),
            8u8 => Ok(FixedCommand::Netinfo),
            9u8 => Ok(FixedCommand::RelayEarly),
            10u8 => Ok(FixedCommand::Create2),
            11u8 => Ok(FixedCommand::Created2),
            12u8 => Ok(FixedCommand::PaddingNegotiate),
            _ => Err(FormatError::InvalidCommand),
        }
    }

    /// The wire byte of this command.
    pub fn to_u8(&self) -> (b: u8)
        ensures
            b == fixed_command_byte(*self),
            fixed_command_of_byte(b) == Some(*self),
    {
        match self {
            FixedCommand::Padding => 0,
            FixedCommand::Create => 1,
            FixedCommand::Created => 2,
            FixedCommand::Relay => 3,
            FixedCommand::Destroy => 4,
            FixedCommand::CreateFast => 5,
            FixedCommand::CreatedFast => 6,
            FixedCommand::Netinfo => 8,
            FixedCommand::RelayEarly => 9,
            FixedCommand::Create2 => 10,
            FixedCommand::Created2 => 11,
            FixedCommand::PaddingNegotiate => 12,
        }
    }
}

/// A fixed-size framed cell: 4-byte circuit id, one command byte, and a
/// payload padded to exactly 509 bytes at construction, 514 wire bytes in all.
#[derive(Clone, Debug)]
pub struct FixedCell {
    pub circuit_id: Vec<u8>,
    pub command: FixedCommand,
    pub payload: Vec<u8>,
}

impl FixedCell {
    /// Structural invariant: the wire size is always 514 bytes.
    pub open spec fn wf(&self) -> bool {
        &&& self.circuit_id@.len() == 4
        &&& self.payload@.len() == 509
    }

    /// The exact 514-byte wire image of this cell.
    pub open spec fn spec_bytes(&self) -> Seq<u8> {
        self.circuit_id@ + seq![fixed_command_byte(self.command)] + self.payload@
    }

    /// Builds a cell, padding the payload to 509 bytes with `padding_byte`
    /// (0x00 when none is given). A payload over 509 bytes is refused with
    /// `PayloadTooLarge`.
    pub fn new(
        payload: Vec<u8>,
        padding_byte: Option<u8>,
        cmd: FixedCommand,
        circ_id: Vec<u8>,
    ) -> (r: Result<FixedCell, FormatError>)
        requires
            circ_id@.len() == 4,
        ensures
            match r {
                Ok(c) => {
                    &&& payload@.len() <= 509
                    &&& c.wf()
                    &&& c.circuit_id@ == circ_id@
                    &&& c.command == cmd
                    &&& c.payload@ == payload@ + Seq::new(
                        (509 - payload@.len()) as nat,
                        |i: int| pad_of(padding_byte),
                    )
                },
                Err(e) => payload@.len() > 509 && e == FormatError::PayloadTooLarge,
            },
    {
        if payload.len() > PAYLOAD_LEN {
            return Err(FormatError::PayloadTooLarge);
        }
        let byte: u8 = match padding_byte {
            Some(x) => x,
            None => 0x00,
        };
        let mut padded = payload;
        let ghost orig = padded@;
        while padded.len() < PAYLOAD_LEN
            invariant
                orig.len() <= padded@.len() <= 509,
                padded@ == orig + Seq::new((padded@.len() - orig.len()) as nat, |i: int| byte),
            decreases 509 - padded@.len(),
        {
            padded.push(byte);
            proof {
                assert(padded@ =~= orig + Seq::new((padded@.len() - orig.len()) as nat, |i: int| byte));
            }
        }
        Ok(FixedCell { circuit_id: circ_id, command: cmd, payload: padded })
    }

    /// Decodes a 514-byte buffer: 4 id bytes, one command byte, 509 payload
    /// bytes. A buffer of any other size fails with `Truncated`; an
    /// unrecognized command byte fails with `InvalidCommand`. On success the
    /// cell's wire image is exactly the input.
    pub fn from_bytes(buf: &Vec<u8>) -> (r: Result<FixedCell, FormatError>)
        ensures
            match r {
                Ok(c) => {
                    &&& buf@.len() == 514
                    &&& c.wf()
                    &&& c.spec_bytes() == buf@
                    &&& c.circuit_id@ == buf@.take(4)
                    &&& fixed_command_of_byte(buf@[4]) == Some(c.command)
                    &&& c.payload@ == buf@.skip(5)
                },
                Err(e) => {
                    ||| (buf@.len() != 514 && e == FormatError::Truncated)
                    ||| (buf@.len() == 514 && fixed_command_of_byte(buf@[4]) is None
                        && e == FormatError::InvalidCommand)
                },
            },
    {
        if buf.len() != CELL_LEN {
            return Err(FormatError::Truncated);
        }
        let mut rdr = ByteCursor::new(clone_bytes(buf));
        let circ_id = match rdr.read_bytes(CIRCID_LEN) {
            Ok(v) => v,
            Err(e) => {
                return Err(e);
            },
        };
        let cmd_byte = match rdr.read_byte() {
            Ok(b) => b,
            Err(e) => {
                return Err(e);
            },
        };
        let cmd = match FixedCommand::from_u8(cmd_byte) {
            Ok(c) => c,
            Err(e) => {
                return Err(e);
            },
        };
        let payload = match rdr.read_bytes(PAYLOAD_LEN) {
            Ok(v) => v,
            Err(e) => {
                return Err(e);
            },
        };
        let cell = FixedCell { circuit_id: circ_id, command: cmd, payload };
        proof {
            assert(cell.spec_bytes() =~= buf@);
        }
        Ok(cell)
    }

    /// Reads one 514-byte cell from the byte source and decodes it as
    /// `from_bytes` does; fewer than 514 bytes left fails with `Truncated`.
    pub fn from_reader(rdr: &mut ByteCursor) -> (r: Result<FixedCell, FormatError>)
        requires
            old(rdr).wf(),
        ensures
            final(rdr).wf(),
            match r {
                Ok(c) => {
                    &&& old(rdr).remaining_bytes().len() >= 514
                    &&& c.wf()
                    &&& old(rdr).remaining_bytes() == c.spec_bytes()
                        + final(rdr).remaining_bytes()
                    &&& fixed_command_of_byte(old(rdr).remaining_bytes()[4]) == Some(c.command)
                },
                Err(e) => {
                    ||| (old(rdr).remaining_bytes().len() < 514 && e == FormatError::Truncated)
                    ||| (old(rdr).remaining_bytes().len() >= 514
                        && fixed_command_of_byte(old(rdr).remaining_bytes()[4]) is None
                        && e == FormatError::InvalidCommand)
                },
            },
    {
        let buf = match rdr.read_bytes(CELL_LEN) {
            Ok(v) => v,
            Err(e) => {
                return Err(e);
            },
        };
        match FixedCell::from_bytes(&buf) {
            Ok(c) => {
                proof {
                    assert(old(rdr).remaining_bytes() =~= c.spec_bytes()
                        + rdr.remaining_bytes());
                }
                Ok(c)
            },
            Err(e) => Err(e),
        }
    }

    /// Encodes the cell to its wire image: always exactly 514 bytes.
    pub fn to_bytes(&self) -> (r: Vec<u8>)
        requires
            self.wf(),
        ensures
            r@ == self.spec_bytes(),
            r@.len() == 514,
    {
        let mut out: Vec<u8> = Vec::new();
        push_all(&mut out, &self.circuit_id);
        out.push(self.command.to_u8());
        push_all(&mut out, &self.payload);
        proof {
            assert(out@ =~= self.spec_bytes());
        }
        out
    }
}

/// Round trip, encode side: the wire image of any well-formed fixed cell is
/// 514 bytes and decodes back to the same circuit id, command and payload.
/// (The decode side is the `from_bytes` contract: the image of what it
/// returns is exactly its input.)
pub proof fn lemma_fixed_cell_encode_decode(c: FixedCell)
    requires
        c.wf(),
    ensures
        c.spec_bytes().len() == 514,
        c.spec_bytes().take(4) == c.circuit_id@,
        fixed_command_of_byte(c.spec_bytes()[4]) == Some(c.command),
        c.spec_bytes().skip(5) == c.payload@,
{
    assert(c.spec_bytes().take(4) =~= c.circuit_id@);
    assert(c.spec_bytes().skip(5) =~= c.payload@);
}

/// Appends every byte of `src` to `dst`, in order.
pub fn push_all(dst: &mut Vec<u8>, src: &Vec<u8>)
    ensures
        final(dst)@ == old(dst)@ + src@,
{
    let mut i: usize = 0;
    while i < src.len()
        invariant
            i <= src@.len(),
            dst@ == old(dst)@ + src@.take(i as int),
        decreases src@.len() - i,
    {
        dst.push(src[i]);
        i = i + 1;
        proof {
            assert(dst@ =~= old(dst)@ + src@.take(i as int));
        }
    }
    proof {
        assert(dst@ =~= old(dst)@ + src@);
    }
}

/// Copies a byte vector.
pub fn clone_bytes(src: &Vec<u8>) -> (r: Vec<u8>)
    ensures
        r@ == src@,
{
    let mut out: Vec<u8> = Vec::new();
    push_all(&mut out, src);
    proof {
        assert(out@ =~= src@);
    }
    out
}

} // verus!
