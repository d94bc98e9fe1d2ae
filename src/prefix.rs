use vstd::prelude::*;

use crate::reader::Reader;

verus! {

/// A set of legacy prefixes, one bit per prefix.
pub type BitPrefix = u32;

pub const LOCK: BitPrefix = 0x1;
pub const REPNE: BitPrefix = 0x2;
pub const REP: BitPrefix = 0x4;

pub const CS_OV: BitPrefix = 0x8;
pub const SS_OV: BitPrefix = 0x10;
pub const DS_OV: BitPrefix = 0x20;
pub const ES_OV: BitPrefix = 0x40;
pub const FS_OV: BitPrefix = 0x80;
pub const GS_OV: BitPrefix = 0x100;

pub const BRANCH_NOT_TAKEN: BitPrefix = 0x200;
pub const BRANCH_TAKEN: BitPrefix = 0x400;

pub const OP_SIZE: BitPrefix = 0x800;
pub const ADDR_SIZE: BitPrefix = 0x1000;

/// The bit that a prefix byte sets, or 0 for a byte that is no prefix.
///
/// The branch hints share their bytes with the CS and DS overrides; without
/// the opcode's context those bytes are read as segment overrides.
pub open spec fn prefix_bit(b: u8) -> BitPrefix {
    if b == 0xF0 {
        LOCK
    } else if b == 0xF2 {
        REPNE
    } else if b == 0xF3 {
        REP
    } else if b == 0x2E {
        CS_OV
    } else if b == 0x36 {
        SS_OV
    } else if b == 0x3E {
        DS_OV
    } else if b == 0x26 {
        ES_OV
    } else if b == 0x64 {
        FS_OV
    } else if b == 0x65 {
        GS_OV
    } else if b == 0x66 {
        OP_SIZE
    } else if b == 0x67 {
        ADDR_SIZE
    } else {
        0
    }
}

pub open spec fn is_prefix(b: u8) -> bool {
    prefix_bit(b) != 0
}

/// Greedy prefix scan of `s`: the number of leading prefix bytes and the set
/// they make, or `None` when the bytes run out before a non-prefix byte.
pub open spec fn scan_prefixes(s: Seq<u8>) -> Option<(nat, BitPrefix)>
    decreases s.len(),
{
    if s.len() == 0 {
        None
    } else if !is_prefix(s[0]) {
        Some((0nat, 0u32))
    } else {
        match scan_prefixes(s.drop_first()) {
            None => None,
            Some((n, p)) => Some((n + 1, p | prefix_bit(s[0]))),
        }
    }
}

/// A scan result seen from `i` bytes further back, with `m` already collected.
pub open spec fn behind(o: Option<(nat, BitPrefix)>, i: nat, m: BitPrefix) -> Option<(nat, BitPrefix)> {
    match o {
        None => None,
        Some((n, p)) => Some((n + i, p | m)),
    }
}

/// The bit that a prefix byte sets, or 0.
pub fn prefix_flag(b: u8) -> (r: BitPrefix)
    ensures
        r == prefix_bit(b),
{
    match b {
        0xF0 => LOCK,
        0xF2 => REPNE,
        0xF3 => REP,
        0x2E => CS_OV,
        0x36 => SS_OV,
        0x3E => DS_OV,
        0x26 => ES_OV,
        0x64 => FS_OV,
        0x65 => GS_OV,
        0x66 => OP_SIZE,
        0x67 => ADDR_SIZE,
        _ => 0,
    }
}

proof fn lemma_or_shuffle(p: u32, f: u32, m: u32)
    ensures
        (p | f) | m == p | (m | f),
        0u32 | m == m,
{
    assert((p | f) | m == p | (m | f)) by (bit_vector);
    assert(0u32 | m == m) by (bit_vector);
}

/// Consumes the legacy prefixes in front of an opcode and returns their set.
///
/// Fails, leaving the cursor as it was, when the bytes run out before an
/// opcode is reached.
pub fn parse_prefixes(reader: &mut Reader) -> (r: Option<BitPrefix>)
    requires
        old(reader).wf(),
    ensures
        match scan_prefixes(old(reader)@) {
            None => r is None && *final(reader) == *old(reader),
            Some((n, p)) => r == Some(p) && final(reader).advanced(*old(reader), n),
        },
{
    let mut cur = *reader;
    let mut prefix: BitPrefix = 0;
    proof {
        if let Some((n, p)) = scan_prefixes(cur@) {
            assert(p | 0u32 == p) by (bit_vector);
        }
    }
    loop
        invariant
            *reader == *old(reader),
            cur.wf(),
            cur.source() == reader.source(),
            reader.wf(),
            reader.position() <= cur.position(),
            scan_prefixes(old(reader)@) == behind(
                scan_prefixes(cur@),
                (cur.position() - old(reader).position()) as nat,
                prefix,
            ),
        decreases cur@.len(),
    {
        match cur.peak_u8() {
            None => {
                return None;
            },
            Some(b) => {
                let f = prefix_flag(b);
                if f == 0 {
                    proof {
                        lemma_or_shuffle(0, 0, prefix);
                    }
                    *reader = cur;
                    return Some(prefix);
                }
                let ghost before = cur;
                cur.eat(1);
                proof {
                    assert(cur@ =~= before@.drop_first());
                    assert(before@[0] == b && is_prefix(b));
                    assert(scan_prefixes(before@) == behind(scan_prefixes(cur@), 1, f));
                    let step = scan_prefixes(cur@);
                    if let Some((n, p)) = step {
                        lemma_or_shuffle(p, f, prefix);
                    }
                }
                prefix = prefix | f;
            },
        }
    }
}

/// A prefix byte written twice sets the same bit as written once, and the
/// scan consumes one byte more for it.
pub proof fn lemma_duplicate_prefix(b: u8, rest: Seq<u8>)
    requires
        is_prefix(b),
    ensures
        scan_prefixes(seq![b, b] + rest) == behind(scan_prefixes(seq![b] + rest), 1, 0),
{
    let once = seq![b] + rest;
    let twice = seq![b, b] + rest;
    assert(twice.drop_first() =~= once);
    assert(once.drop_first() =~= rest);
    if let Some((n, p)) = scan_prefixes(rest) {
        let f = prefix_bit(b);
        assert((p | f) | f == (p | f) | 0u32) by (bit_vector);
    }
}

} // verus!
