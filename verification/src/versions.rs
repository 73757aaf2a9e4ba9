use vstd::prelude::*;

use crate::cursor::{be16, ByteCursor};
use crate::errors::FormatError;
use crate::variable_cell::{
    var_idl, var_payload, var_rest, variable_cell_parses, variable_decode_err,
    variable_command_of_byte, var_cid, var_len, VariableCell, VariableCommand,
};

verus! {

/// The one link protocol version this client advertises and accepts.
pub const LINK_PROTOCOL_VERSION: u16 = 5;

/// The `i`-th advertised version of a VERSIONS payload, read as a
/// big-endian 16-bit value.
pub open spec fn pair_at(payload: Seq<u8>, i: int) -> u16 {
    be16(payload[2 * i], payload[2 * i + 1])
}

/// Whether a VERSIONS payload, read as consecutive big-endian 16-bit values,
/// advertises version `v`. A trailing odd byte belongs to no version.
pub open spec fn contains_version(payload: Seq<u8>, v: u16) -> bool {
    exists|i: int| 0 <= i && 2 * i + 1 < payload.len() && #[trigger] pair_at(payload, i) == v
}

/// Builds the bootstrap VERSIONS cell: all-zero legacy 2-byte circuit id and
/// a payload advertising version 5 only. Its wire image is exactly
/// `[0, 0, 7, 0, 2, 0, 5]`.
pub fn create_handshake_versions_cell() -> (c: VariableCell)
    ensures
        c.wf(),
        c.circuit_id@ == seq![0u8, 0u8],
        c.command == VariableCommand::Versions,
        c.payload@ == seq![0u8, 5u8],
        c.spec_bytes() == seq![0u8, 0u8, 7u8, 0u8, 2u8, 0u8, 5u8],
        contains_version(c.payload@, LINK_PROTOCOL_VERSION as u16),
{
    let mut cid: Vec<u8> = Vec::new();
    cid.push(0x0);
    cid.push(0x0);
    let mut payload: Vec<u8> = Vec::new();
    payload.push(0x0);
    payload.push(0x5);
    let c = VariableCell { circuit_id: cid, command: VariableCommand::Versions, length: 2, payload };
    proof {
        assert(c.circuit_id@ =~= seq![0u8, 0u8]);
        assert(c.payload@ =~= seq![0u8, 5u8]);
        assert(c.spec_bytes() =~= seq![0u8, 0u8, 7u8, 0u8, 2u8, 0u8, 5u8]);
        assert(contains_version(c.payload@, 5)) by {
            assert(pair_at(c.payload@, 0) == 5);
        }
    }
    c
}

/// Reads the peer's bootstrap VERSIONS cell, which still uses the legacy
/// 2-byte circuit-id width.
pub fn read_handshake_versions_cell(rdr: &mut ByteCursor) -> (r: Result<
    VariableCell,
    FormatError,
>)
    requires
        old(rdr).wf(),
    ensures
        final(rdr).wf(),
        match r {
            Ok(c) => {
                &&& variable_cell_parses(old(rdr).remaining_bytes(), true)
                &&& c.wf()
                &&& c.circuit_id@ == var_cid(old(rdr).remaining_bytes(), true)
                &&& Some(c.command) == variable_command_of_byte(
                    old(rdr).remaining_bytes()[var_idl(true)],
                )
                &&& c.length == var_len(old(rdr).remaining_bytes(), true)
                &&& c.payload@ == var_payload(old(rdr).remaining_bytes(), true)
                &&& final(rdr).remaining_bytes() == var_rest(old(rdr).remaining_bytes(), true)
                &&& old(rdr).remaining_bytes() == c.spec_bytes() + final(rdr).remaining_bytes()
            },
            Err(e) => {
                &&& !variable_cell_parses(old(rdr).remaining_bytes(), true)
                &&& e == variable_decode_err(old(rdr).remaining_bytes(), true)
            },
        },
{
    VariableCell::from_reader(rdr, true)
}

/// Whether the peer's VERSIONS cell advertises the locally required version.
pub fn is_supported(cell: &VariableCell) -> (r: bool)
    ensures
        r == contains_version(cell.payload@, LINK_PROTOCOL_VERSION as u16),
{
    let len = cell.payload.len();
    let pairs = len / 2;
    let mut k: usize = 0;
    let mut found = false;
    while k < pairs
        invariant
            len == cell.payload@.len(),
            pairs == len / 2,
            k <= pairs,
            found == exists|j: int| 0 <= j < k && #[trigger] pair_at(cell.payload@, j) == 5,
        decreases pairs - k,
    {
        let hi = cell.payload[2 * k];
        let lo = cell.payload[2 * k + 1];
        if (hi as u16) * 256 + (lo as u16) == LINK_PROTOCOL_VERSION {
            proof {
                assert(pair_at(cell.payload@, k as int) == 5);
            }
            found = true;
        }
        k = k + 1;
    }
    proof {
        if found {
            assert(contains_version(cell.payload@, 5));
        } else {
            assert forall|j: int|
                0 <= j && 2 * j + 1 < cell.payload@.len() implies #[trigger] pair_at(
                cell.payload@,
                j,
            ) != 5 by {
                assert(j < pairs);
            }
            assert(!contains_version(cell.payload@, 5));
        }
    }
    found
}

} // verus!
