use vstd::prelude::*;

use crate::modrm::{mode_of, reg_of, rm_of, Modrm, MODE_REGISTER};
use crate::prefix::{parse_prefixes, scan_prefixes, BitPrefix, is_prefix};
use crate::reader::{le16, Reader};

verus! {

/// The instruction shapes that an opcode table can map a byte to.
#[derive(Clone, Copy, Debug, PartialEq, Eq, Structural)]
pub enum Shape {
    /// `mov r16, imm16`: register from the opcode's low 3 bits.
    MovRegImm16,
    /// `add r/m16, r16`: operands from a ModRM byte.
    AddRmReg16,
    /// `cmp ax, imm16`.
    CmpAxImm16,
}

/// A decoded instruction: which operation, on which operands.
#[derive(Clone, Copy, Debug, PartialEq, Eq, Structural)]
pub enum Inst {
    MovImm16 { reg: u8, imm: u16 },
    AddRmReg16 { rm: u8, reg: u8 },
    CmpAxImm16 { imm: u16 },
}

/// Why an instruction could not be decoded or executed.
#[derive(Clone, Copy, Debug, PartialEq, Eq, Structural)]
pub enum Fault {
    /// The bytes ran out before the instruction was complete.
    Truncated,
    /// The opcode byte (or the 0x0F escape) has no supported meaning.
    UnsupportedOpcode(u8),
    /// The ModRM byte asks for an addressing mode other than register-direct;
    /// the mode is given.
    UnsupportedMode(u8),
}

/// One decoded instruction with everything its consumers need.
#[derive(Clone, Copy, Debug, PartialEq, Eq, Structural)]
pub struct Decoded {
    pub prefixes: BitPrefix,
    pub opcode: u8,
    pub inst: Inst,
    /// Bytes consumed, prefixes included.
    pub len: usize,
}

/// Whether the register fields of `inst` name one of the eight registers.
pub open spec fn operands_in_range(inst: Inst) -> bool {
    match inst {
        Inst::MovImm16 { reg, .. } => reg < 8,
        Inst::AddRmReg16 { rm, reg } => rm < 8 && reg < 8,
        Inst::CmpAxImm16 { .. } => true,
    }
}

/// The two-byte escape, whose opcode space is not supported.
pub const ESCAPE: u8 = 0x0F;

/// An immutable mapping from primary opcode byte to instruction shape.
pub struct OpcodeTable {
    entries: Vec<Option<Shape>>,
}

impl View for OpcodeTable {
    type V = Seq<Option<Shape>>;

    closed spec fn view(&self) -> Seq<Option<Shape>> {
        self.entries@
    }
}

/// The table shared by both consumers: mov and add, and cmp when `with_cmp`.
pub open spec fn standard_table(with_cmp: bool) -> Seq<Option<Shape>> {
    Seq::new(
        256,
        |i: int|
            if 0xB8 <= i <= 0xBF {
                Some(Shape::MovRegImm16)
            } else if i == 0x01 {
                Some(Shape::AddRmReg16)
            } else if i == 0x3D && with_cmp {
                Some(Shape::CmpAxImm16)
            } else {
                None
            },
    )
}

impl OpcodeTable {
    pub open spec fn wf(&self) -> bool {
        self@.len() == 256
    }

    /// A table with no opcode in it.
    pub fn empty() -> (t: Self)
        ensures
            t.wf(),
            forall|i: int| 0 <= i < 256 ==> t@[i] is None,
    {
        let mut entries: Vec<Option<Shape>> = Vec::new();
        let mut i: usize = 0;
        while i < 256
            invariant
                i <= 256,
                entries@.len() == i,
                forall|j: int| 0 <= j < i ==> entries@[j] is None,
            decreases 256 - i,
        {
            entries.push(None);
            i = i + 1;
        }
        OpcodeTable { entries }
    }

    /// Maps `op` to `shape`, leaving every other entry as it was.
    pub fn set(&mut self, op: u8, shape: Option<Shape>)
        requires
            old(self).wf(),
        ensures
            final(self)@ == old(self)@.update(op as int, shape),
            final(self).wf(),
    {
        self.entries.set(op as usize, shape);
    }

    /// The shape that `op` maps to.
    pub fn lookup(&self, op: u8) -> (r: Option<Shape>)
        requires
            self.wf(),
        ensures
            r == self@[op as int],
    {
        self.entries[op as usize]
    }

    fn standard(with_cmp: bool) -> (t: Self)
        ensures
            t.wf(),
            t@ == standard_table(with_cmp),
    {
        let mut t = OpcodeTable::empty();
        let mut op: u8 = 0xB8;
        while op <= 0xBF
            invariant
                0xB8 <= op <= 0xC0,
                t.wf(),
                forall|i: int|
                    0 <= i < 256 ==> t@[i] == if 0xB8 <= i < op {
                        Some(Shape::MovRegImm16)
                    } else {
                        None::<Shape>
                    },
            decreases 0xC0 - op,
        {
            t.set(op, Some(Shape::MovRegImm16));
            op = op + 1;
        }
        t.set(0x01, Some(Shape::AddRmReg16));
        if with_cmp {
            t.set(0x3D, Some(Shape::CmpAxImm16));
        }
        assert(t@ =~= standard_table(with_cmp));
        t
    }

    /// The table the disassembler renders from: mov, add and cmp.
    pub fn disasm_table() -> (t: Self)
        ensures
            t.wf(),
            t@ == standard_table(true),
    {
        Self::standard(true)
    }

    /// The table the interpreter executes from: mov and add. Comparison has
    /// no execution semantics, so 0x3D is absent.
    pub fn exec_table() -> (t: Self)
        ensures
            t.wf(),
            t@ == standard_table(false),
    {
        Self::standard(false)
    }
}

/// Decoding of the bytes `s` that follow the prefixes: the instruction and
/// how many bytes it takes, opcode included.
pub open spec fn opcode_spec(table: Seq<Option<Shape>>, s: Seq<u8>) -> Result<(Inst, nat), Fault> {
    if s.len() == 0 {
        Err(Fault::Truncated)
    } else if s[0] == ESCAPE || table[s[0] as int] is None {
        Err(Fault::UnsupportedOpcode(s[0]))
    } else {
        match table[s[0] as int]->0 {
            Shape::MovRegImm16 => if s.len() < 3 {
                Err(Fault::Truncated)
            } else {
                Ok((Inst::MovImm16 { reg: s[0] % 8, imm: le16(s[1], s[2]) }, 3))
            },
            Shape::AddRmReg16 => if s.len() < 2 {
                Err(Fault::Truncated)
            } else if mode_of(s[1]) != MODE_REGISTER {
                Err(Fault::UnsupportedMode(mode_of(s[1])))
            } else {
                Ok((Inst::AddRmReg16 { rm: rm_of(s[1]), reg: reg_of(s[1]) }, 2))
            },
            Shape::CmpAxImm16 => if s.len() < 3 {
                Err(Fault::Truncated)
            } else {
                Ok((Inst::CmpAxImm16 { imm: le16(s[1], s[2]) }, 3))
            },
        }
    }
}

/// Decoding of one whole instruction at the start of `s`.
pub open spec fn decode_spec(table: Seq<Option<Shape>>, s: Seq<u8>) -> Result<Decoded, Fault> {
    match scan_prefixes(s) {
        None => Err(Fault::Truncated),
        Some((n, p)) => match opcode_spec(table, s.skip(n as int)) {
            Err(e) => Err(e),
            Ok((inst, k)) => Ok(
                Decoded { prefixes: p, opcode: s[n as int], inst, len: (n + k) as usize },
            ),
        },
    }
}

/// A successful scan stops at a non-prefix byte inside `s`.
pub proof fn lemma_scan_in_bounds(s: Seq<u8>)
    ensures
        scan_prefixes(s) matches Some((n, p)) ==> n < s.len() && !is_prefix(s[n as int]),
    decreases s.len(),
{
    if s.len() > 0 && is_prefix(s[0]) {
        lemma_scan_in_bounds(s.drop_first());
        if let Some((n, p)) = scan_prefixes(s.drop_first()) {
            assert(s.drop_first()[n as int] == s[n + 1int]);
        }
    }
}

/// A decoded instruction takes at least one byte and no more than there are.
pub proof fn lemma_decoded_len(table: Seq<Option<Shape>>, s: Seq<u8>)
    requires
        s.len() <= usize::MAX,
    ensures
        decode_spec(table, s) matches Ok(d) ==> 1 <= d.len <= s.len(),
{
    lemma_scan_in_bounds(s);
    if let Some((n, p)) = scan_prefixes(s) {
        if let Ok((inst, k)) = opcode_spec(table, s.skip(n as int)) {
            assert(1 <= k <= s.len() - n);
        }
    }
}

/// Reads the opcode and operands that follow the prefixes.
///
/// On success the cursor stands after the instruction; on failure it is
/// left where it was.
pub fn decode_opcode(table: &OpcodeTable, reader: &mut Reader) -> (r: Result<(u8, Inst), Fault>)
    requires
        table.wf(),
        old(reader).wf(),
    ensures
        match opcode_spec(table@, old(reader)@) {
            Err(e) => r == Err::<(u8, Inst), Fault>(e) && *final(reader) == *old(reader),
            Ok((inst, k)) => r == Ok::<(u8, Inst), Fault>((old(reader)@[0], inst))
                && final(reader).advanced(*old(reader), k),
        },
{
    let mut cur = *reader;
    let op = match cur.read_u8() {
        Some(op) => op,
        None => {
            return Err(Fault::Truncated);
        },
    };
    if op == ESCAPE {
        return Err(Fault::UnsupportedOpcode(op));
    }
    let inst = match table.lookup(op) {
        None => {
            return Err(Fault::UnsupportedOpcode(op));
        },
        Some(Shape::MovRegImm16) => match cur.read_u16() {
            Some(imm) => Inst::MovImm16 { reg: op % 8, imm },
            None => {
                return Err(Fault::Truncated);
            },
        },
        Some(Shape::AddRmReg16) => {
            let modrm = match cur.read_u8() {
                Some(b) => Modrm(b),
                None => {
                    return Err(Fault::Truncated);
                },
            };
            let mode = modrm.modb();
            if mode != MODE_REGISTER {
                return Err(Fault::UnsupportedMode(mode));
            }
            Inst::AddRmReg16 { rm: modrm.rm(), reg: modrm.reg() }
        },
        Some(Shape::CmpAxImm16) => match cur.read_u16() {
            Some(imm) => Inst::CmpAxImm16 { imm },
            None => {
                return Err(Fault::Truncated);
            },
        },
    };
    *reader = cur;
    Ok((op, inst))
}

/// Decodes one whole instruction: prefixes, opcode and operands.
///
/// On success the cursor stands after the instruction; on failure it is
/// left where it was.
pub fn decode_inst(table: &OpcodeTable, reader: &mut Reader) -> (r: Result<Decoded, Fault>)
    requires
        table.wf(),
        old(reader).wf(),
    ensures
        r == decode_spec(table@, old(reader)@),
        r matches Ok(d) ==> final(reader).advanced(*old(reader), d.len as nat),
        r is Err ==> *final(reader) == *old(reader),
{
    let mut cur = *reader;
    let start = cur.offset_from();
    let prefixes = match parse_prefixes(&mut cur) {
        Some(p) => p,
        None => {
            return Err(Fault::Truncated);
        },
    };
    proof {
        lemma_scan_in_bounds(reader@);
        let n = cur.position() - reader.position();
        assert(cur@ =~= reader@.skip(n as int));
    }
    let (opcode, inst) = match decode_opcode(table, &mut cur) {
        Ok(x) => x,
        Err(e) => {
            return Err(e);
        },
    };
    let len = cur.offset_from() - start;
    *reader = cur;
    Ok(Decoded { prefixes, opcode, inst, len })
}

} // verus!
