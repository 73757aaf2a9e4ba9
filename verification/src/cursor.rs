use vstd::prelude::*;

use crate::errors::FormatError;

verus! {

/// The value of a big-endian 16-bit integer laid out as two bytes.
pub open spec fn be16(hi: u8, lo: u8) -> u16 {
    (hi as u16 * 256 + lo as u16) as u16
}

/// High byte of a 16-bit integer in big-endian layout.
pub open spec fn be16_hi(v: u16) -> u8 {
    (v / 256) as u8
}

/// Low byte of a 16-bit integer in big-endian layout.
pub open spec fn be16_lo(v: u16) -> u8 {
    (v % 256) as u8
}

/// The value of a big-endian 32-bit integer laid out as four bytes.
pub open spec fn be32(b0: u8, b1: u8, b2: u8, b3: u8) -> u32 {
    (b0 as u32 * 0x1000000 + b1 as u32 * 0x10000 + b2 as u32 * 0x100 + b3 as u32) as u32
}

/// Splitting a 16-bit value into its big-endian bytes and reading them back
/// is the identity, in both directions.
pub proof fn lemma_be16_split(v: u16)
    ensures
        be16(be16_hi(v), be16_lo(v)) == v,
{
}

pub proof fn lemma_be16_bytes(hi: u8, lo: u8)
    ensures
        be16_hi(be16(hi, lo)) == hi,
        be16_lo(be16(hi, lo)) == lo,
{
}

/// An in-memory byte source with exact-length reads. Parsing functions borrow
/// one of these instead of a concrete transport, so the protocol logic can be
/// exercised against plain buffers.
pub struct ByteCursor {
    data: Vec<u8>,
    pos: usize,
}

impl ByteCursor {
    /// The reads never run past the underlying buffer.
    pub closed spec fn wf(&self) -> bool {
        self.pos <= self.data@.len()
    }

    /// The bytes not yet consumed, in order.
    pub closed spec fn remaining_bytes(&self) -> Seq<u8> {
        self.data@.skip(self.pos as int)
    }

    pub fn new(data: Vec<u8>) -> (c: ByteCursor)
        ensures
            c.wf(),
            c.remaining_bytes() == data@,
    {
        let c = ByteCursor { data, pos: 0 };
        proof {
            assert(c.remaining_bytes() =~= c.data@);
        }
        c
    }

    pub fn remaining(&self) -> (n: usize)
        requires
            self.wf(),
        ensures
            n == self.remaining_bytes().len(),
    {
        self.data.len() - self.pos
    }

    /// Reads one byte, or fails with `Truncated` when none is left.
    pub fn read_byte(&mut self) -> (r: Result<u8, FormatError>)
        requires
            old(self).wf(),
        ensures
            final(self).wf(),
            match r {
                Ok(b) => {
                    &&& old(self).remaining_bytes().len() >= 1
                    &&& b == old(self).remaining_bytes()[0]
                    &&& final(self).remaining_bytes() == old(self).remaining_bytes().skip(1)
                },
                Err(e) => {
                    &&& e == FormatError::Truncated
                    &&& old(self).remaining_bytes().len() == 0
                    &&& *final(self) == *old(self)
                },
            },
    {
        if self.pos < self.data.len() {
            let b = self.data[self.pos];
            self.pos = self.pos + 1;
            proof {
                assert(final(self).remaining_bytes() =~= old(self).remaining_bytes().skip(1));
            }
            Ok(b)
        } else {
            Err(FormatError::Truncated)
        }
    }

    /// Reads exactly `n` bytes, or fails with `Truncated` and consumes nothing.
    pub fn read_bytes(&mut self, n: usize) -> (r: Result<Vec<u8>, FormatError>)
        requires
            old(self).wf(),
        ensures
            final(self).wf(),
            match r {
                Ok(v) => {
                    &&& n <= old(self).remaining_bytes().len()
                    &&& v@ == old(self).remaining_bytes().take(n as int)
                    &&& v@.len() == n
                    &&& final(self).remaining_bytes() == old(self).remaining_bytes().skip(n as int)
                },
                Err(e) => {
                    &&& e == FormatError::Truncated
                    &&& n > old(self).remaining_bytes().len()
                    &&& *final(self) == *old(self)
                },
            },
    {
        let len: usize = self.data.len();
        if n > len - self.pos {
            return Err(FormatError::Truncated);
        }
        let base: usize = self.pos;
        let mut out: Vec<u8> = Vec::new();
        let mut i: usize = 0;
        while i < n
            invariant
                self == old(self),
                self.wf(),
                i <= n,
                base == self.pos,
                len == self.data@.len(),
                n <= len - base,
                out@ == self.data@.subrange(base as int, base + i),
            decreases n - i,
        {
            out.push(self.data[base + i]);
            i = i + 1;
            proof {
                assert(out@ =~= self.data@.subrange(base as int, base + i));
            }
        }
        proof {
            assert(out@ =~= old(self).remaining_bytes().take(n as int));
        }
        self.pos = self.pos + n;
        proof {
            assert(final(self).remaining_bytes() =~= old(self).remaining_bytes().skip(n as int));
        }
        Ok(out)
    }

    /// Reads a big-endian 16-bit integer, or fails with `Truncated` and
    /// consumes nothing.
    pub fn read_u16_be(&mut self) -> (r: Result<u16, FormatError>)
        requires
            old(self).wf(),
        ensures
            final(self).wf(),
            match r {
                Ok(v) => {
                    &&& old(self).remaining_bytes().len() >= 2
                    &&& v == be16(
                        old(self).remaining_bytes()[0],
                        old(self).remaining_bytes()[1],
                    )
                    &&& final(self).remaining_bytes() == old(self).remaining_bytes().skip(2)
                },
                Err(e) => {
                    &&& e == FormatError::Truncated
                    &&& old(self).remaining_bytes().len() < 2
                    &&& *final(self) == *old(self)
                },
            },
    {
        if self.data.len() - self.pos < 2 {
            return Err(FormatError::Truncated);
        }
        let hi = self.data[self.pos];
        let lo = self.data[self.pos + 1];
        self.pos = self.pos + 2;
        proof {
            assert(final(self).remaining_bytes() =~= old(self).remaining_bytes().skip(2));
        }
        Ok((hi as u16) * 256 + (lo as u16))
    }

    /// Reads a big-endian 32-bit integer, or fails with `Truncated` and
    /// consumes nothing.
    pub fn read_u32_be(&mut self) -> (r: Result<u32, FormatError>)
        requires
            old(self).wf(),
        ensures
            final(self).wf(),
            match r {
                Ok(v) => {
                    &&& old(self).remaining_bytes().len() >= 4
                    &&& v == be32(
                        old(self).remaining_bytes()[0],
                        old(self).remaining_bytes()[1],
                        old(self).remaining_bytes()[2],
                        old(self).remaining_bytes()[3],
                    )
                    &&& final(self).remaining_bytes() == old(self).remaining_bytes().skip(4)
                },
                Err(e) => {
                    &&& e == FormatError::Truncated
                    &&& old(self).remaining_bytes().len() < 4
                    &&& *final(self) == *old(self)
                },
            },
    {
        if self.data.len() - self.pos < 4 {
            return Err(FormatError::Truncated);
        }
        let b0 = self.data[self.pos];
        let b1 = self.data[self.pos + 1];
        let b2 = self.data[self.pos + 2];
        let b3 = self.data[self.pos + 3];
        self.pos = self.pos + 4;
        proof {
            assert(final(self).remaining_bytes() =~= old(self).remaining_bytes().skip(4));
        }
        Ok((b0 as u32) * 0x1000000 + (b1 as u32) * 0x10000 + (b2 as u32) * 0x100 + (b3 as u32))
    }
}

} // verus!
