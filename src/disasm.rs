use vstd::prelude::*;
use vstd::string::StringExecFns;

use crate::decode::{
    decode_inst, decode_opcode, decode_spec, opcode_spec, operands_in_range, Fault, Inst, OpcodeTable,
};
use crate::prefix::BitPrefix;
use crate::reader::Reader;
use crate::reg::{reg16_name, reg16_name_of, A};
use crate::text::{decimal, push_decimal};

verus! {

/// The text of one instruction, in Intel operand order.
pub open spec fn render(inst: Inst) -> Seq<char> {
    match inst {
        Inst::MovImm16 { reg, imm } => "mov "@ + reg16_name_of(reg as int) + ", "@ + decimal(
            imm as nat,
        ),
        Inst::AddRmReg16 { rm, reg } => "add "@ + reg16_name_of(rm as int) + ", "@
            + reg16_name_of(reg as int),
        Inst::CmpAxImm16 { imm } => "cmp "@ + reg16_name_of(A as int) + ", "@ + decimal(
            imm as nat,
        ),
    }
}

/// What is shown for bytes that do not decode.
pub open spec fn unknown_text() -> Seq<char> {
    "???"@
}

fn disasm_mov(reg: u8, imm: u16) -> (r: String)
    requires
        reg < 8,
    ensures
        r@ == render(Inst::MovImm16 { reg, imm }),
{
    let mut s = String::from_str("mov ");
    s.append(reg16_name(reg as usize));
    s.append(", ");
    push_decimal(&mut s, imm as u32);
    s
}

fn disasm_add(rm: u8, reg: u8) -> (r: String)
    requires
        rm < 8,
        reg < 8,
    ensures
        r@ == render(Inst::AddRmReg16 { rm, reg }),
{
    let mut s = String::from_str("add ");
    s.append(reg16_name(rm as usize));
    s.append(", ");
    s.append(reg16_name(reg as usize));
    s
}

fn disasm_cmp_rax_imm16(imm: u16) -> (r: String)
    ensures
        r@ == render(Inst::CmpAxImm16 { imm }),
{
    let mut s = String::from_str("cmp ");
    s.append(reg16_name(A));
    s.append(", ");
    push_decimal(&mut s, imm as u32);
    s
}

/// Renders a decoded instruction as text.
pub fn render_inst(inst: Inst) -> (r: String)
    requires
        operands_in_range(inst),
    ensures
        r@ == render(inst),
{
    match inst {
        Inst::MovImm16 { reg, imm } => disasm_mov(reg, imm),
        Inst::AddRmReg16 { rm, reg } => disasm_add(rm, reg),
        Inst::CmpAxImm16 { imm } => disasm_cmp_rax_imm16(imm),
    }
}

/// Decodes and renders the opcode and operands that follow the prefixes.
pub fn disasm_opcode(table: &OpcodeTable, reader: &mut Reader, _prefixes: BitPrefix) -> (r: Result<
    String,
    Fault,
>)
    requires
        table.wf(),
        old(reader).wf(),
    ensures
        match opcode_spec(table@, old(reader)@) {
            Err(e) => r == Err::<String, Fault>(e) && *final(reader) == *old(reader),
            Ok((inst, k)) => r matches Ok(t) && t@ == render(inst) && final(reader).advanced(
                *old(reader),
                k,
            ),
        },
{
    match decode_opcode(table, reader) {
        Ok((_op, inst)) => Ok(render_inst(inst)),
        Err(e) => Err(e),
    }
}

/// Decodes and renders one whole instruction.
pub fn disasm_inst(table: &OpcodeTable, reader: &mut Reader) -> (r: Result<String, Fault>)
    requires
        table.wf(),
        old(reader).wf(),
    ensures
        match decode_spec(table@, old(reader)@) {
            Err(e) => r == Err::<String, Fault>(e) && *final(reader) == *old(reader),
            Ok(d) => r matches Ok(t) && t@ == render(d.inst) && final(reader).advanced(
                *old(reader),
                d.len as nat,
            ),
        },
{
    match decode_inst(table, reader) {
        Ok(d) => Ok(render_inst(d.inst)),
        Err(e) => Err(e),
    }
}

/// Best-effort rendering: the instruction's text, or `???` where it does not decode.
pub fn disasm_or_unknown(table: &OpcodeTable, reader: &mut Reader) -> (r: String)
    requires
        table.wf(),
        old(reader).wf(),
    ensures
        r@ == match decode_spec(table@, old(reader)@) {
            Err(_) => unknown_text(),
            Ok(d) => render(d.inst),
        },
{
    match disasm_inst(table, reader) {
        Ok(t) => t,
        Err(_) => String::from_str("???"),
    }
}

} // verus!
