//! Laws that relate the decoder, the disassembler and the interpreter.
use vstd::prelude::*;

use crate::decode::{
    decode_spec, lemma_decoded_len, lemma_scan_in_bounds, standard_table, Decoded, Fault, Shape, ESCAPE,
};
use crate::disasm::render;
use crate::modrm::{mode_of, reg_of, rm_of, MODE_REGISTER};
use crate::prefix::{is_prefix, lemma_duplicate_prefix, scan_prefixes};
use crate::reader::le16;
use crate::reg::reg16_name_of;
use crate::run::{add16, code_at, outcome, step_spec, with_low16};
use crate::text::decimal;

verus! {

/// The bytes that an instruction of `shape` takes, opcode included.
pub open spec fn shape_len(shape: Shape) -> nat {
    match shape {
        Shape::MovRegImm16 => 3,
        Shape::AddRmReg16 => 2,
        Shape::CmpAxImm16 => 3,
    }
}

/// `s` ends before the instruction it starts is complete: inside the
/// prefixes, or before the bytes that the opcode's shape requires.
pub open spec fn cut_short(table: Seq<Option<Shape>>, s: Seq<u8>) -> bool {
    match scan_prefixes(s) {
        None => true,
        Some((n, _)) => {
            &&& s[n as int] != ESCAPE
            &&& table[s[n as int] as int] matches Some(shape)
            &&& s.len() < n + shape_len(shape)
        },
    }
}

/// Input that ends inside a supported instruction is reported as truncated,
/// both when decoding and when executing, with any table.
pub proof fn lemma_short_input_truncated(
    table: Seq<Option<Shape>>,
    regs: Seq<u32>,
    rip: nat,
    ram: Seq<u8>,
)
    requires
        table.len() == 256,
        rip <= ram.len(),
        cut_short(table, code_at(ram, rip)),
    ensures
        decode_spec(table, code_at(ram, rip)) == Err::<Decoded, Fault>(Fault::Truncated),
        step_spec(table, regs, rip, ram) == Err::<(Seq<u32>, nat), Fault>(Fault::Truncated),
{
    lemma_scan_in_bounds(code_at(ram, rip));
}

/// Replacing the low half of a register keeps its high half.
pub proof fn lemma_with_low16(v: u32, lo: u16)
    ensures
        with_low16(v, lo) % 0x10000 == lo,
        with_low16(v, lo) / 0x10000 == v / 0x10000,
{
    assert(((v - v % 0x10000 + lo) as u32) % 0x10000 == lo && ((v - v % 0x10000 + lo) as u32)
        / 0x10000 == v / 0x10000) by (bit_vector);
}

/// `mov r16, imm16` (0xB8 to 0xBF) sets the low half of the register named
/// by the opcode's low bits to the immediate, keeps its high half and the
/// other registers, moves the pointer by three bytes, and is rendered as
/// `mov <reg16>, <imm>`.
pub proof fn lemma_mov_imm16(regs: Seq<u32>, rip: nat, ram: Seq<u8>)
    requires
        regs.len() == 8,
        rip + 3 <= ram.len(),
        0xB8 <= ram[rip as int] <= 0xBF,
    ensures
        ({
            let r = ram[rip as int] - 0xB8;
            let imm = le16(ram[rip + 1int], ram[rip + 2int]);
            let v = with_low16(regs[r], imm);
            &&& step_spec(standard_table(false), regs, rip, ram) == Ok::<(Seq<u32>, nat), Fault>(
                (regs.update(r, v), rip + 3),
            )
            &&& v % 0x10000 == imm
            &&& v / 0x10000 == regs[r] / 0x10000
            &&& decode_spec(standard_table(true), code_at(ram, rip)) matches Ok(d) && render(d.inst)
                == "mov "@ + reg16_name_of(r) + ", "@ + decimal(imm as nat)
        }),
{
    let s = code_at(ram, rip);
    assert(s[0] == ram[rip as int] && s[1] == ram[rip + 1int] && s[2] == ram[rip + 2int]);
    assert(s.skip(0) =~= s);
    let r = ram[rip as int] - 0xB8;
    assert(ram[rip as int] % 8 == r);
    lemma_with_low16(regs[r], le16(ram[rip + 1int], ram[rip + 2int]));
}

/// `add r/m16, r16` (0x01) with a register-direct ModRM byte adds the low
/// half of the `reg` register into the low half of the `rm` register with
/// 16-bit wraparound, keeps the high halves of both, moves the pointer by
/// two bytes, and is rendered as `add <rm16>, <reg16>`.
pub proof fn lemma_add_reg16(regs: Seq<u32>, rip: nat, ram: Seq<u8>)
    requires
        regs.len() == 8,
        rip + 2 <= ram.len(),
        ram[rip as int] == 0x01,
        mode_of(ram[rip + 1int]) == MODE_REGISTER,
    ensures
        ({
            let m = ram[rip + 1int];
            let rm = rm_of(m) as int;
            let reg = reg_of(m) as int;
            let v = with_low16(regs[rm], add16(regs[rm], regs[reg]));
            let after = regs.update(rm, v);
            &&& step_spec(standard_table(false), regs, rip, ram) == Ok::<(Seq<u32>, nat), Fault>(
                (after, rip + 2),
            )
            &&& v % 0x10000 == (regs[rm] % 0x10000 + regs[reg] % 0x10000) % 0x10000
            &&& after[rm] / 0x10000 == regs[rm] / 0x10000
            &&& after[reg] / 0x10000 == regs[reg] / 0x10000
            &&& decode_spec(standard_table(true), code_at(ram, rip)) matches Ok(d) && render(d.inst)
                == "add "@ + reg16_name_of(rm) + ", "@ + reg16_name_of(reg)
        }),
{
    let s = code_at(ram, rip);
    assert(s[0] == ram[rip as int] && s[1] == ram[rip + 1int]);
    assert(s.skip(0) =~= s);
    let m = ram[rip + 1int];
    let rm = rm_of(m) as int;
    let reg = reg_of(m) as int;
    lemma_with_low16(regs[rm], add16(regs[rm], regs[reg]));
}

/// `add` with a ModRM byte whose mode is not register-direct is refused with
/// that mode, when decoding with either table and when executing.
pub proof fn lemma_add_memory_mode(regs: Seq<u32>, rip: nat, ram: Seq<u8>)
    requires
        rip + 2 <= ram.len(),
        ram[rip as int] == 0x01,
        mode_of(ram[rip + 1int]) != MODE_REGISTER,
    ensures
        ({
            let e = Fault::UnsupportedMode(mode_of(ram[rip + 1int]));
            &&& decode_spec(standard_table(true), code_at(ram, rip)) == Err::<Decoded, Fault>(e)
            &&& decode_spec(standard_table(false), code_at(ram, rip)) == Err::<Decoded, Fault>(e)
            &&& step_spec(standard_table(false), regs, rip, ram) == Err::<(Seq<u32>, nat), Fault>(e)
        }),
{
    let s = code_at(ram, rip);
    assert(s[0] == ram[rip as int] && s[1] == ram[rip + 1int]);
    assert(s.skip(0) =~= s);
}

/// An opcode byte that the table does not map (or the 0x0F escape) is
/// refused by that very byte, when decoding and when executing.
pub proof fn lemma_unmapped_opcode(
    table: Seq<Option<Shape>>,
    regs: Seq<u32>,
    rip: nat,
    ram: Seq<u8>,
)
    requires
        table.len() == 256,
        rip < ram.len(),
        !is_prefix(ram[rip as int]),
        table[ram[rip as int] as int] is None || ram[rip as int] == ESCAPE,
    ensures
        ({
            let e = Fault::UnsupportedOpcode(ram[rip as int]);
            &&& decode_spec(table, code_at(ram, rip)) == Err::<Decoded, Fault>(e)
            &&& step_spec(table, regs, rip, ram) == Err::<(Seq<u32>, nat), Fault>(e)
        }),
{
    let s = code_at(ram, rip);
    assert(s[0] == ram[rip as int]);
    assert(s.skip(0) =~= s);
}

/// A prefix byte written twice decodes as written once: the same prefix set
/// and instruction, one byte longer; a failure stays the same failure.
pub proof fn lemma_duplicate_prefix_decode(table: Seq<Option<Shape>>, b: u8, rest: Seq<u8>)
    requires
        is_prefix(b),
        rest.len() + 2 <= usize::MAX,
    ensures
        match decode_spec(table, seq![b] + rest) {
            Err(e) => decode_spec(table, seq![b, b] + rest) == Err::<Decoded, Fault>(e),
            Ok(d) => decode_spec(table, seq![b, b] + rest) == Ok::<Decoded, Fault>(
                Decoded { len: (d.len + 1) as usize, ..d },
            ),
        },
{
    let once = seq![b] + rest;
    let twice = seq![b, b] + rest;
    lemma_duplicate_prefix(b, rest);
    lemma_scan_in_bounds(once);
    lemma_decoded_len(table, once);
    if let Some((n, p)) = scan_prefixes(once) {
        assert(twice.skip(n + 1int) =~= once.skip(n as int));
        assert(twice[n + 1int] == once[n as int]);
        assert(p | 0u32 == p) by (bit_vector);
    }
}

/// The disassembler and the interpreter agree on every instruction the
/// interpreter can execute: the same prefixes, opcode, operands and length,
/// so the text names the registers and immediate that execution uses.
pub proof fn lemma_disasm_agrees_with_exec(regs: Seq<u32>, rip: nat, ram: Seq<u8>)
    requires
        rip <= ram.len(),
    ensures
        step_spec(standard_table(false), regs, rip, ram) is Ok ==> {
            &&& decode_spec(standard_table(true), code_at(ram, rip)) == decode_spec(
                standard_table(false),
                code_at(ram, rip),
            )
            &&& decode_spec(standard_table(false), code_at(ram, rip)) matches Ok(d)
                && step_spec(standard_table(false), regs, rip, ram) == outcome(
                regs,
                rip,
                d.opcode,
                d.inst,
                d.len as nat,
            )
        },
{
    let s = code_at(ram, rip);
    lemma_scan_in_bounds(s);
    if let Some((n, p)) = scan_prefixes(s) {
        let t = s.skip(n as int);
        assert(t[0] == s[n as int]);
    }
}

} // verus!
