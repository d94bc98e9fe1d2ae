use vstd::prelude::*;
use vstd::string::StringExecFns;

use crate::reg::{reg32_name, reg32_name_of};
use crate::text::{hex_digits, push_hex};

verus! {

/// The machine: eight 32-bit general-purpose registers, an instruction
/// pointer, and the memory it points into.
pub struct VM {
    pub gprs: [u32; 8],
    pub rip: u32,
    pub ram: Vec<u8>,
}

/// What goes before the `i`-th entry of the register dump.
pub open spec fn dump_separator(i: int) -> Seq<char> {
    if i == 0 {
        Seq::empty()
    } else if i % 4 == 0 {
        "\n"@
    } else {
        " "@
    }
}

/// The `i`-th entry of the register dump: `name=XXXXXXXX`.
pub open spec fn dump_entry(regs: Seq<u32>, i: int) -> Seq<char> {
    dump_separator(i) + reg32_name_of(i) + "="@ + hex_digits(regs[i] as nat, 8)
}

/// The first `k` entries of the register dump.
pub open spec fn dump_text(regs: Seq<u32>, k: nat) -> Seq<char>
    decreases k,
{
    if k == 0 {
        Seq::empty()
    } else {
        dump_text(regs, (k - 1) as nat) + dump_entry(regs, k - 1)
    }
}

impl VM {
    /// A machine over `ram` with every register zero and the instruction
    /// pointer at the start.
    pub fn new(ram: Vec<u8>) -> (vm: Self)
        ensures
            vm.gprs@ == seq![0u32; 8],
            vm.rip == 0,
            vm.ram@ == ram@,
    {
        let vm = VM { gprs: [0u32; 8], rip: 0, ram };
        assert(vm.gprs@ =~= seq![0u32; 8]);
        vm
    }

    /// The register dump: four `name=XXXXXXXX` entries per line, separated
    /// by a space, in the order eax ecx edx ebx esp ebp esi edi.
    pub fn dump_gprs(&self) -> (r: String)
        ensures
            r@ == dump_text(self.gprs@, 8),
    {
        let mut out = String::new();
        let mut i: usize = 0;
        while i < 8
            invariant
                i <= 8,
                out@ == dump_text(self.gprs@, i as nat),
            decreases 8 - i,
        {
            let ghost before = out@;
            if i > 0 {
                if i % 4 == 0 {
                    out.append("\n");
                } else {
                    out.append(" ");
                }
            }
            out.append(reg32_name(i));
            out.append("=");
            push_hex(&mut out, self.gprs[i], 8);
            assert(out@ =~= before + dump_entry(self.gprs@, i as int));
            i = i + 1;
        }
        out
    }
}

} // verus!
