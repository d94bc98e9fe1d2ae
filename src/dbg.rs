use vstd::prelude::*;
use vstd::string::StringExecFns;

use crate::decode::{decode_spec, standard_table, Fault, OpcodeTable};
use crate::disasm::{disasm_or_unknown, render, unknown_text};
use crate::reader::Reader;
use crate::run::{code_at, run_inst, step_spec};
use crate::text::{hex_digits, push_hex};
use crate::vm::VM;

verus! {

/// A single-stepper: one machine, rendered and executed through the two
/// standard opcode tables.
pub struct Dbg {
    pub vm: VM,
    pub disasm_table: OpcodeTable,
    pub exec_table: OpcodeTable,
}

/// The text of the instruction at `rip`, or `???` where none decodes.
pub open spec fn inst_text_at(ram: Seq<u8>, rip: nat) -> Seq<char> {
    if rip > ram.len() {
        unknown_text()
    } else {
        match decode_spec(standard_table(true), code_at(ram, rip)) {
            Err(_) => unknown_text(),
            Ok(d) => render(d.inst),
        }
    }
}

impl Dbg {
    /// The stepper holds the two standard tables.
    pub open spec fn wf(&self) -> bool {
        &&& self.disasm_table.wf()
        &&& self.exec_table.wf()
        &&& self.disasm_table@ == standard_table(true)
        &&& self.exec_table@ == standard_table(false)
    }

    pub fn new(vm: VM) -> (d: Self)
        ensures
            d.wf(),
            d.vm == vm,
    {
        Dbg { vm, disasm_table: OpcodeTable::disasm_table(), exec_table: OpcodeTable::exec_table() }
    }

    /// The current instruction as `XXXXXXXX>text`: the instruction pointer in
    /// eight hexadecimal digits, then the instruction's text or `???`.
    pub fn disasm(&self) -> (r: String)
        requires
            self.wf(),
        ensures
            r@ == hex_digits(self.vm.rip as nat, 8) + ">"@ + inst_text_at(
                self.vm.ram@,
                self.vm.rip as nat,
            ),
    {
        let mut out = String::new();
        push_hex(&mut out, self.vm.rip, 8);
        out.append(">");
        if self.vm.rip as usize > self.vm.ram.len() {
            out.append("???");
        } else {
            let mut r = Reader::at(self.vm.ram.as_slice(), self.vm.rip as usize);
            let text = disasm_or_unknown(&self.disasm_table, &mut r);
            out.append(text.as_str());
        }
        out
    }

    /// Executes exactly one instruction; a fault is returned and leaves the
    /// machine as it was.
    pub fn next(&mut self) -> (r: Result<(), Fault>)
        requires
            old(self).wf(),
            old(self).vm.ram@.len() <= u32::MAX,
        ensures
            final(self).wf(),
            match step_spec(
                standard_table(false),
                old(self).vm.gprs@,
                old(self).vm.rip as nat,
                old(self).vm.ram@,
            ) {
                Err(e) => r == Err::<(), Fault>(e) && final(self).vm == old(self).vm,
                Ok((g, ip)) => r is Ok && final(self).vm.gprs@ == g && final(self).vm.rip == ip
                    && final(self).vm.ram == old(self).vm.ram,
            },
    {
        run_inst(&mut self.vm, &self.exec_table)
    }
}

} // verus!
