use vstd::prelude::*;

use crate::decode::{
    decode_inst, decode_opcode, decode_spec, lemma_decoded_len, opcode_spec, operands_in_range, Fault,
    Inst, OpcodeTable, Shape,
};
use crate::prefix::BitPrefix;
use crate::reader::Reader;
use crate::vm::VM;

verus! {

/// `v` with its low 16 bits replaced by `lo`.
pub open spec fn with_low16(v: u32, lo: u16) -> u32 {
    (v - v % 0x10000 + lo) as u32
}

/// The 16-bit sum of the low halves of `a` and `b`, carry dropped.
pub open spec fn add16(a: u32, b: u32) -> u16 {
    ((a % 0x10000 + b % 0x10000) % 0x10000) as u16
}

/// The registers after `inst`, or `None` for an instruction with no
/// execution semantics.
pub open spec fn apply(regs: Seq<u32>, inst: Inst) -> Option<Seq<u32>> {
    match inst {
        Inst::MovImm16 { reg, imm } => Some(
            regs.update(reg as int, with_low16(regs[reg as int], imm)),
        ),
        Inst::AddRmReg16 { rm, reg } => Some(
            regs.update(
                rm as int,
                with_low16(regs[rm as int], add16(regs[rm as int], regs[reg as int])),
            ),
        ),
        Inst::CmpAxImm16 { .. } => None,
    }
}

/// The registers and instruction pointer after an instruction of `len`
/// bytes at `rip`.
pub open spec fn outcome(regs: Seq<u32>, rip: nat, opcode: u8, inst: Inst, len: nat) -> Result<
    (Seq<u32>, nat),
    Fault,
> {
    match apply(regs, inst) {
        None => Err(Fault::UnsupportedOpcode(opcode)),
        Some(g) => Ok((g, rip + len)),
    }
}

/// The bytes of `ram` from `rip` on.
pub open spec fn code_at(ram: Seq<u8>, rip: nat) -> Seq<u8> {
    ram.subrange(rip as int, ram.len() as int)
}

/// One step of the machine from `rip`: the new registers and instruction
/// pointer, or the fault that stops it.
pub open spec fn step_spec(table: Seq<Option<Shape>>, regs: Seq<u32>, rip: nat, ram: Seq<u8>) -> Result<
    (Seq<u32>, nat),
    Fault,
> {
    if rip > ram.len() {
        Err(Fault::Truncated)
    } else {
        match decode_spec(table, code_at(ram, rip)) {
            Err(e) => Err(e),
            Ok(d) => outcome(regs, rip, d.opcode, d.inst, d.len as nat),
        }
    }
}

/// One step from `rip`, with the prefixes already consumed.
pub open spec fn opcode_step_spec(
    table: Seq<Option<Shape>>,
    regs: Seq<u32>,
    rip: nat,
    ram: Seq<u8>,
) -> Result<(Seq<u32>, nat), Fault> {
    if rip > ram.len() {
        Err(Fault::Truncated)
    } else {
        match opcode_spec(table, code_at(ram, rip)) {
            Err(e) => Err(e),
            Ok((inst, k)) => outcome(regs, rip, ram[rip as int], inst, k),
        }
    }
}

/// Steps from `rip` until the instruction pointer reaches the end of
/// `ram` or a step faults: the final registers, instruction pointer, and
/// the fault, if one stopped the run.
pub open spec fn run_spec(table: Seq<Option<Shape>>, regs: Seq<u32>, rip: nat, ram: Seq<u8>) -> (
    Seq<u32>,
    nat,
    Option<Fault>,
)
    decreases ram.len() - rip,
{
    if rip >= ram.len() {
        (regs, rip, None)
    } else {
        match step_spec(table, regs, rip, ram) {
            Err(e) => (regs, rip, Some(e)),
            Ok((g, next)) => if rip < next <= ram.len() {
                run_spec(table, g, next, ram)
            } else {
                (g, next, None)
            },
        }
    }
}

/// Loads `imm` into the low 16 bits of register `reg`.
fn run_mov(vm: &mut VM, reg: u8, imm: u16)
    requires
        reg < 8,
    ensures
        final(vm).gprs@ == old(vm).gprs@.update(reg as int, with_low16(old(vm).gprs@[reg as int], imm)),
        final(vm).rip == old(vm).rip,
        final(vm).ram == old(vm).ram,
{
    let v = vm.gprs[reg as usize];
    let nv = (v & 0xFFFF0000u32) | (imm as u32);
    assert((v & 0xFFFF0000u32) | (imm as u32) == (v - v % 0x10000 + imm) as u32) by (bit_vector);
    vm.gprs[reg as usize] = nv;
    assert(vm.gprs@ =~= old(vm).gprs@.update(reg as int, with_low16(old(vm).gprs@[reg as int], imm)));
}

/// Adds the low 16 bits of register `reg` into those of register `rm`.
fn run_add(vm: &mut VM, rm: u8, reg: u8)
    requires
        rm < 8,
        reg < 8,
    ensures
        final(vm).gprs@ == old(vm).gprs@.update(
            rm as int,
            with_low16(
                old(vm).gprs@[rm as int],
                add16(old(vm).gprs@[rm as int], old(vm).gprs@[reg as int]),
            ),
        ),
        final(vm).rip == old(vm).rip,
        final(vm).ram == old(vm).ram,
{
    let a = vm.gprs[rm as usize];
    let b = vm.gprs[reg as usize];
    let lo_a: u32 = a & 0xFFFFu32;
    let lo_b: u32 = b & 0xFFFFu32;
    assert(lo_a == a % 0x10000 && lo_b == b % 0x10000) by (bit_vector)
        requires
            lo_a == a & 0xFFFFu32,
            lo_b == b & 0xFFFFu32,
    ;
    let wide: u32 = lo_a + lo_b;
    let sum: u16 = (wide & 0xFFFFu32) as u16;
    assert(sum == (wide % 0x10000) as u16) by (bit_vector)
        requires
            sum == (wide & 0xFFFFu32) as u16,
    ;
    assert((a & 0xFFFF0000u32) | (sum as u32) == (a - a % 0x10000 + sum) as u32) by (bit_vector);
    let nv = (a & 0xFFFF0000u32) | (sum as u32);
    vm.gprs[rm as usize] = nv;
    assert(vm.gprs@ =~= old(vm).gprs@.update(
        rm as int,
        with_low16(old(vm).gprs@[rm as int], add16(old(vm).gprs@[rm as int], old(vm).gprs@[reg as int])),
    ));
}

/// Carries out a decoded instruction on the registers. An instruction with
/// no execution semantics is refused by its opcode and changes nothing.
pub fn execute(vm: &mut VM, opcode: u8, inst: Inst) -> (r: Result<(), Fault>)
    requires
        operands_in_range(inst),
    ensures
        match apply(old(vm).gprs@, inst) {
            None => r == Err::<(), Fault>(Fault::UnsupportedOpcode(opcode)) && *final(vm) == *old(vm),
            Some(g) => r is Ok && final(vm).gprs@ == g && final(vm).rip == old(vm).rip
                && final(vm).ram == old(vm).ram,
        },
{
    match inst {
        Inst::MovImm16 { reg, imm } => {
            run_mov(vm, reg, imm);
            Ok(())
        },
        Inst::AddRmReg16 { rm, reg } => {
            run_add(vm, rm, reg);
            Ok(())
        },
        Inst::CmpAxImm16 { .. } => Err(Fault::UnsupportedOpcode(opcode)),
    }
}

/// Executes the instruction at the instruction pointer whose prefixes were
/// already consumed. On failure the machine is left as it was.
pub fn run_opcode(vm: &mut VM, table: &OpcodeTable, _prefixes: BitPrefix) -> (r: Result<(), Fault>)
    requires
        table.wf(),
        old(vm).ram@.len() <= u32::MAX,
    ensures
        match opcode_step_spec(table@, old(vm).gprs@, old(vm).rip as nat, old(vm).ram@) {
            Err(e) => r == Err::<(), Fault>(e) && *final(vm) == *old(vm),
            Ok((g, ip)) => r is Ok && final(vm).gprs@ == g && final(vm).rip == ip
                && final(vm).ram == old(vm).ram,
        },
{
    if vm.rip as usize > vm.ram.len() {
        return Err(Fault::Truncated);
    }
    let start = vm.rip as usize;
    let (opcode, inst, len) = {
        let mut r = Reader::at(vm.ram.as_slice(), start);
        match decode_opcode(table, &mut r) {
            Ok((opcode, inst)) => (opcode, inst, r.offset_from() - start),
            Err(e) => {
                return Err(e);
            },
        }
    };
    match execute(vm, opcode, inst) {
        Ok(()) => {},
        Err(e) => {
            return Err(e);
        },
    }
    vm.rip = vm.rip + len as u32;
    Ok(())
}

/// Executes the instruction at the instruction pointer and moves the
/// pointer past it. On failure the machine is left as it was.
pub fn run_inst(vm: &mut VM, table: &OpcodeTable) -> (r: Result<(), Fault>)
    requires
        table.wf(),
        old(vm).ram@.len() <= u32::MAX,
    ensures
        match step_spec(table@, old(vm).gprs@, old(vm).rip as nat, old(vm).ram@) {
            Err(e) => r == Err::<(), Fault>(e) && *final(vm) == *old(vm),
            Ok((g, ip)) => r is Ok && final(vm).gprs@ == g && final(vm).rip == ip
                && final(vm).ram == old(vm).ram,
        },
{
    if vm.rip as usize > vm.ram.len() {
        return Err(Fault::Truncated);
    }
    let d = {
        let mut r = Reader::at(vm.ram.as_slice(), vm.rip as usize);
        match decode_inst(table, &mut r) {
            Ok(d) => d,
            Err(e) => {
                return Err(e);
            },
        }
    };
    proof {
        lemma_decoded_len(table@, code_at(vm.ram@, vm.rip as nat));
    }
    match execute(vm, d.opcode, d.inst) {
        Ok(()) => {},
        Err(e) => {
            return Err(e);
        },
    }
    vm.rip = vm.rip + d.len as u32;
    Ok(())
}

/// Runs instructions until the instruction pointer reaches the end of
/// memory, stopping at the first fault with the machine as it was before
/// the faulting instruction.
pub fn run_to_end(vm: &mut VM, table: &OpcodeTable) -> (r: Result<(), Fault>)
    requires
        table.wf(),
        old(vm).ram@.len() <= u32::MAX,
    ensures
        run_spec(table@, old(vm).gprs@, old(vm).rip as nat, old(vm).ram@) == (
            final(vm).gprs@,
            final(vm).rip as nat,
            match r {
                Ok(_) => None,
                Err(e) => Some(e),
            },
        ),
        final(vm).ram == old(vm).ram,
{
    while (vm.rip as usize) < vm.ram.len()
        invariant
            table.wf(),
            vm.ram == old(vm).ram,
            vm.ram@.len() <= u32::MAX,
            run_spec(table@, vm.gprs@, vm.rip as nat, vm.ram@) == run_spec(
                table@,
                old(vm).gprs@,
                old(vm).rip as nat,
                old(vm).ram@,
            ),
        decreases vm.ram@.len() - vm.rip,
    {
        proof {
            lemma_decoded_len(table@, code_at(vm.ram@, vm.rip as nat));
        }
        match run_inst(vm, table) {
            Ok(()) => {},
            Err(e) => {
                return Err(e);
            },
        }
    }
    Ok(())
}

} // verus!
