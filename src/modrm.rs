use vstd::prelude::*;

verus! {

/// An addressing byte, split into mode (bits 7..6), register (5..3) and
/// register/memory (2..0) fields.
#[derive(Clone, Copy, Debug, PartialEq, Eq)]
pub struct Modrm(pub u8);

/// Mode 3: the r/m field names a register, no memory operand.
pub const MODE_REGISTER: u8 = 3;

pub open spec fn mode_of(b: u8) -> u8 {
    b / 64
}

pub open spec fn reg_of(b: u8) -> u8 {
    (b / 8) % 8
}

pub open spec fn rm_of(b: u8) -> u8 {
    b % 8
}

impl Modrm {
    /// The addressing mode field.
    pub fn modb(self) -> (r: u8)
        ensures
            r == mode_of(self.0),
            r < 4,
    {
        let b = self.0;
        assert(b >> 6u8 == b / 64 && b / 64 < 4) by (bit_vector);
        b >> 6u8
    }

    /// The register operand field.
    pub fn reg(self) -> (r: u8)
        ensures
            r == reg_of(self.0),
            r < 8,
    {
        let b = self.0;
        assert((b >> 3u8) & 7u8 == (b / 8) % 8) by (bit_vector);
        (b >> 3u8) & 7u8
    }

    /// The register/memory operand field.
    pub fn rm(self) -> (r: u8)
        ensures
            r == rm_of(self.0),
            r < 8,
    {
        let b = self.0;
        assert(b & 7u8 == b % 8) by (bit_vector);
        b & 7u8
    }
}

} // verus!
