//! Sequential little-endian cursor over an immutable byte buffer.
//!
//! Every field of the navigation-mesh format is a whole number of bytes, so
//! the cursor keeps a byte position while its interface speaks of bits, as
//! the format's own sanity checks do (a decode may leave up to 32 trailing
//! bits unread).

use vstd::prelude::*;

verus! {

/// Why the cursor could not serve a read: the request would run past the end
/// of the buffer.
#[derive(Debug, Clone, Copy, PartialEq, Eq, Structural)]
pub struct CursorError {
    /// Width of the read that failed, in bits.
    pub requested_bits: usize,
    /// How many bits were still unread when the request was made.
    pub bits_left: usize,
}

/// The error a read of `requested_bits` bits at byte `pos` of `d` fails
/// with.
pub open spec fn starved(d: Seq<u8>, pos: int, requested_bits: int) -> CursorError {
    CursorError {
        requested_bits: requested_bits as usize,
        bits_left: (8 * (d.len() - pos)) as usize,
    }
}

/// Little-endian value of `n` bytes of `d` starting at byte `pos`.
pub open spec fn le_bytes(d: Seq<u8>, pos: int, n: nat) -> int
    decreases n,
{
    if n == 0 {
        0
    } else {
        d[pos] + 256 * le_bytes(d, pos + 1, (n - 1) as nat)
    }
}

/// Sequential reader over a byte buffer; reads advance, nothing seeks back.
pub struct BitCursor {
    data: Vec<u8>,
    pos: usize,
}

impl BitCursor {
    /// The whole buffer the cursor was created over.
    pub closed spec fn bytes(&self) -> Seq<u8> {
        self.data@
    }

    /// The next unread byte's index.
    pub closed spec fn byte_pos(&self) -> int {
        self.pos as int
    }

    /// The position never runs past the buffer, and the buffer's bit count
    /// fits the machine word, so remaining-bit reports cannot overflow.
    pub open spec fn wf(&self) -> bool {
        0 <= self.byte_pos() <= self.bytes().len() && 8 * self.bytes().len() <= usize::MAX
    }

    pub fn new(data: Vec<u8>) -> (r: BitCursor)
        requires
            8 * data@.len() <= usize::MAX,
        ensures
            r.wf(),
            r.bytes() == data@,
            r.byte_pos() == 0,
    {
        BitCursor { data, pos: 0 }
    }

    /// How many bits are still unread.
    pub fn bits_left(&self) -> (r: usize)
        requires
            self.wf(),
        ensures
            r == 8 * (self.bytes().len() - self.byte_pos()),
    {
        (self.data.len() - self.pos) * 8
    }

    /// The error describing a failed read of `requested_bits` at the current
    /// position.
    fn starve(&self, requested_bits: usize) -> (r: CursorError)
        requires
            self.wf(),
        ensures
            r == starved(self.bytes(), self.byte_pos(), requested_bits as int),
    {
        CursorError { requested_bits, bits_left: (self.data.len() - self.pos) * 8 }
    }

    pub fn read_u8(&mut self) -> (r: Result<u8, CursorError>)
        requires
            old(self).wf(),
        ensures
            final(self).wf(),
            final(self).bytes() == old(self).bytes(),
            match p_u8(old(self).bytes(), old(self).byte_pos()) {
                Ok((v, p)) => r == Ok::<u8, CursorError>(v) && final(self).byte_pos() == p,
                Err(e) => r == Err::<u8, CursorError>(e) && *final(self) == *old(self),
            },
    {
        if self.data.len() - self.pos >= 1 {
            let v = self.data[self.pos];
            self.pos = self.pos + 1;
            Ok(v)
        } else {
            Err(self.starve(8))
        }
    }

    pub fn read_u16(&mut self) -> (r: Result<u16, CursorError>)
        requires
            old(self).wf(),
        ensures
            final(self).wf(),
            final(self).bytes() == old(self).bytes(),
            match p_u16(old(self).bytes(), old(self).byte_pos()) {
                Ok((v, p)) => r == Ok::<u16, CursorError>(v) && final(self).byte_pos() == p,
                Err(e) => r == Err::<u16, CursorError>(e) && *final(self) == *old(self),
            },
    {
        if self.data.len() - self.pos >= 2 {
            let b0 = self.data[self.pos];
            let b1 = self.data[self.pos + 1];
            proof {
                reveal_with_fuel(le_bytes, 3);
            }
            self.pos = self.pos + 2;
            Ok(b0 as u16 + 256 * b1 as u16)
        } else {
            Err(self.starve(16))
        }
    }

    pub fn read_u32(&mut self) -> (r: Result<u32, CursorError>)
        requires
            old(self).wf(),
        ensures
            final(self).wf(),
            final(self).bytes() == old(self).bytes(),
            match p_u32(old(self).bytes(), old(self).byte_pos()) {
                Ok((v, p)) => r == Ok::<u32, CursorError>(v) && final(self).byte_pos() == p,
                Err(e) => r == Err::<u32, CursorError>(e) && *final(self) == *old(self),
            },
    {
        if self.data.len() - self.pos >= 4 {
            let b0 = self.data[self.pos];
            let b1 = self.data[self.pos + 1];
            let b2 = self.data[self.pos + 2];
            let b3 = self.data[self.pos + 3];
            proof {
                reveal_with_fuel(le_bytes, 5);
            }
            self.pos = self.pos + 4;
            Ok(b0 as u32 + 256 * b1 as u32 + 65536 * b2 as u32 + 16777216 * b3 as u32)
        } else {
            Err(self.starve(32))
        }
    }

    /// Skips `bits` bits; the format only ever skips whole bytes.
    pub fn skip_bits(&mut self, bits: usize) -> (r: Result<(), CursorError>)
        requires
            old(self).wf(),
            bits % 8 == 0,
        ensures
            final(self).wf(),
            final(self).bytes() == old(self).bytes(),
            match p_skip(old(self).bytes(), old(self).byte_pos(), (bits / 8) as int) {
                Ok((v, p)) => r is Ok && final(self).byte_pos() == p,
                Err(e) => r == Err::<(), CursorError>(e) && *final(self) == *old(self),
            },
    {
        let n = bits / 8;
        if self.data.len() - self.pos >= n {
            self.pos = self.pos + n;
            Ok(())
        } else {
            Err(self.starve(bits))
        }
    }

    /// Reads a fixed-length byte string.
    pub fn read_bytes(&mut self, len: usize) -> (r: Result<Vec<u8>, CursorError>)
        requires
            old(self).wf(),
            len <= usize::MAX / 16,
        ensures
            final(self).wf(),
            final(self).bytes() == old(self).bytes(),
            match p_skip(old(self).bytes(), old(self).byte_pos(), len as int) {
                Ok((v, p)) => r is Ok && final(self).byte_pos() == p && r->Ok_0@ == old(
                self,
                ).bytes().subrange(old(self).byte_pos(), p),
                Err(e) => r == Err::<Vec<u8>, CursorError>(e) && *final(self) == *old(self),
            },
    {
        if self.data.len() - self.pos >= len {
            let mut out: Vec<u8> = Vec::new();
            let mut i: usize = 0;
            while i < len
                invariant
                    self.wf(),
                    i <= len,
                    self.byte_pos() + len <= self.bytes().len(),
                    out@ == self.bytes().subrange(self.byte_pos(), self.byte_pos() + i),
                decreases len - i,
            {
                out.push(self.data[self.pos + i]);
                i = i + 1;
                proof {
                    assert(out@ =~= self.bytes().subrange(
                        self.byte_pos(),
                        self.byte_pos() + i,
                    ));
                }
            }
            self.pos = self.pos + len;
            Ok(out)
        } else {
            Err(self.starve(8 * len))
        }
    }
}

/// One byte at `pos`, and the position after it.
pub open spec fn p_u8(d: Seq<u8>, pos: int) -> Result<(u8, int), CursorError> {
    if 0 <= pos && pos + 1 <= d.len() {
        Ok((d[pos], pos + 1))
    } else {
        Err(starved(d, pos, 8))
    }
}

/// A little-endian 16-bit integer at `pos`, and the position after it.
pub open spec fn p_u16(d: Seq<u8>, pos: int) -> Result<(u16, int), CursorError> {
    if 0 <= pos && pos + 2 <= d.len() {
        Ok((le_bytes(d, pos, 2) as u16, pos + 2))
    } else {
        Err(starved(d, pos, 16))
    }
}

/// A little-endian 32-bit integer at `pos`, and the position after it.
pub open spec fn p_u32(d: Seq<u8>, pos: int) -> Result<(u32, int), CursorError> {
    if 0 <= pos && pos + 4 <= d.len() {
        Ok((le_bytes(d, pos, 4) as u32, pos + 4))
    } else {
        Err(starved(d, pos, 32))
    }
}

/// `n` bytes skipped from `pos`: no value, only the position after them.
pub open spec fn p_skip(d: Seq<u8>, pos: int, n: int) -> Result<((), int), CursorError> {
    if 0 <= pos && 0 <= n && pos + n <= d.len() {
        Ok(((), pos + n))
    } else {
        Err(starved(d, pos, 8 * n))
    }
}

} // verus!
