use vstd::prelude::*;

use crate::cursor::ByteCursor;
use crate::errors::{CellError, ProtocolError};
use crate::fixed_cell::{fixed_command_of_byte, FixedCell, FixedCommand};

verus! {

/// A validated NETINFO cell: a fixed cell whose command is Netinfo. Its
/// payload is carried through unparsed; address and timestamp semantics are
/// out of scope.
#[derive(Clone, Debug)]
pub struct NetInfoCell {
    pub cell: FixedCell,
}

impl NetInfoCell {
    /// Reads one fixed cell and confirms its command is Netinfo; any other
    /// command fails with `UnexpectedCellType`.
    pub fn from_reader(rdr: &mut ByteCursor) -> (r: Result<NetInfoCell, CellError>)
        requires
            old(rdr).wf(),
        ensures
            final(rdr).wf(),
            match r {
                Ok(nc) => {
                    &&& old(rdr).remaining_bytes().len() >= 514
                    &&& fixed_command_of_byte(old(rdr).remaining_bytes()[4]) == Some(
                        FixedCommand::Netinfo,
                    )
                    &&& nc.cell.wf()
                    &&& nc.cell.command == FixedCommand::Netinfo
                    &&& old(rdr).remaining_bytes() == nc.cell.spec_bytes()
                        + final(rdr).remaining_bytes()
                },
                Err(CellError::Format(e)) => {
                    ||| (old(rdr).remaining_bytes().len() < 514 && e
                        == crate::errors::FormatError::Truncated)
                    ||| (old(rdr).remaining_bytes().len() >= 514 && fixed_command_of_byte(
                        old(rdr).remaining_bytes()[4],
                    ) is None && e == crate::errors::FormatError::InvalidCommand)
                },
                Err(CellError::Protocol(pe)) => {
                    &&& pe == ProtocolError::UnexpectedCellType
                    &&& old(rdr).remaining_bytes().len() >= 514
                    &&& fixed_command_of_byte(old(rdr).remaining_bytes()[4]) is Some
                    &&& fixed_command_of_byte(old(rdr).remaining_bytes()[4]) != Some(
                        FixedCommand::Netinfo,
                    )
                },
            },
    {
        let cell = match FixedCell::from_reader(rdr) {
            Ok(c) => c,
            Err(e) => {
                return Err(CellError::Format(e));
            },
        };
        if !matches!(cell.command, FixedCommand::Netinfo) {
            return Err(CellError::Protocol(ProtocolError::UnexpectedCellType));
        }
        Ok(NetInfoCell { cell })
    }
}

} // verus!
