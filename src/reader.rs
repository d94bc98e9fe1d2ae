use vstd::prelude::*;

verus! {

/// A forward-only cursor over a byte buffer that it borrows.
///
/// The cursor remembers the buffer it was made over (its source) and how far
/// into it it stands, so the absolute offset of the next byte is always known.
#[derive(Clone, Copy)]
pub struct Reader<'a> {
    data: &'a [u8],
    pos: usize,
}

impl<'a> View for Reader<'a> {
    type V = Seq<u8>;

    /// The bytes that are still to be read.
    open spec fn view(&self) -> Seq<u8> {
        self.source().subrange(self.position() as int, self.source().len() as int)
    }
}

impl<'a> Reader<'a> {
    /// The whole buffer the cursor was made over.
    pub closed spec fn source(&self) -> Seq<u8> {
        self.data@
    }

    /// The absolute position of the next byte within the source.
    pub closed spec fn position(&self) -> nat {
        self.pos as nat
    }

    pub open spec fn wf(&self) -> bool {
        self.position() <= self.source().len()
    }

    /// The cursor after `n` more bytes of the same source were consumed.
    pub open spec fn advanced(&self, before: Reader<'a>, n: nat) -> bool {
        &&& self.wf()
        &&& self.source() == before.source()
        &&& self.position() == before.position() + n
    }

    /// A cursor at the start of `data`.
    pub fn new(data: &'a [u8]) -> (r: Self)
        ensures
            r.wf(),
            r.source() == data@,
            r.position() == 0,
            r@ == data@,
    {
        Reader { data, pos: 0 }
    }

    /// A cursor over `data`, standing at `start`.
    pub fn at(data: &'a [u8], start: usize) -> (r: Self)
        requires
            start <= data@.len(),
        ensures
            r.wf(),
            r.source() == data@,
            r.position() == start,
    {
        Reader { data, pos: start }
    }

    /// Reads exactly `n` bytes; with fewer left, fails and leaves the cursor as it was.
    pub fn read(&mut self, n: usize) -> (r: Option<&'a [u8]>)
        requires
            old(self).wf(),
        ensures
            old(self)@.len() < n ==> r is None && *final(self) == *old(self),
            n <= old(self)@.len() ==> {
                &&& r is Some
                &&& r->0@ == old(self)@.take(n as int)
                &&& final(self).advanced(*old(self), n as nat)
            },
    {
        if self.data.len() - self.pos < n {
            return None;
        }
        let end = self.pos + n;
        let out = &self.data[self.pos..end];
        self.pos = end;
        Some(out)
    }

    /// Skips up to `n` bytes, stopping at the end of the source.
    pub fn eat(&mut self, n: usize)
        requires
            old(self).wf(),
        ensures
            n <= old(self)@.len() ==> final(self).advanced(*old(self), n as nat),
            old(self)@.len() < n ==> final(self).advanced(*old(self), old(self)@.len()),
    {
        let left = self.data.len() - self.pos;
        if n <= left {
            self.pos = self.pos + n;
        } else {
            self.pos = self.data.len();
        }
    }

    /// Reads one byte.
    pub fn read_u8(&mut self) -> (r: Option<u8>)
        requires
            old(self).wf(),
        ensures
            old(self)@.len() < 1 ==> r is None && *final(self) == *old(self),
            1 <= old(self)@.len() ==> r == Some(old(self)@[0]) && final(self).advanced(
                *old(self),
                1,
            ),
    {
        match self.read(1) {
            Some(b) => Some(b[0]),
            None => None,
        }
    }

    /// Reads a little-endian 16-bit value.
    pub fn read_u16(&mut self) -> (r: Option<u16>)
        requires
            old(self).wf(),
        ensures
            old(self)@.len() < 2 ==> r is None && *final(self) == *old(self),
            2 <= old(self)@.len() ==> r == Some(le16(old(self)@[0], old(self)@[1]))
                && final(self).advanced(*old(self), 2),
    {
        match self.read(2) {
            Some(b) => Some(u16_from_le(b[0], b[1])),
            None => None,
        }
    }

    /// The next byte, without consuming it.
    pub fn peak_u8(&self) -> (r: Option<u8>)
        requires
            self.wf(),
        ensures
            self@.len() < 1 ==> r is None,
            1 <= self@.len() ==> r == Some(self@[0]),
    {
        if self.pos < self.data.len() {
            Some(self.data[self.pos])
        } else {
            None
        }
    }

    /// Whether any byte is left.
    pub fn has_left(&self) -> (r: bool)
        requires
            self.wf(),
        ensures
            r == (self@.len() != 0),
    {
        self.pos < self.data.len()
    }

    /// The offset of the next byte from the start of the buffer the cursor
    /// was made over.
    pub fn offset_from(&self) -> (r: usize)
        ensures
            r == self.position(),
    {
        self.pos
    }
}

/// The value of two bytes read in little-endian order.
pub open spec fn le16(lo: u8, hi: u8) -> u16 {
    (lo as int + 256 * (hi as int)) as u16
}

/// Builds a 16-bit value from its low and high bytes.
pub fn u16_from_le(lo: u8, hi: u8) -> (r: u16)
    ensures
        r == le16(lo, hi),
{
    let r: u16 = (lo as u16) | ((hi as u16) << 8u16);
    assert(((lo as u16) | ((hi as u16) << 8u16)) == (lo as int + 256 * (hi as int)) as u16)
        by (bit_vector);
    r
}

} // verus!
