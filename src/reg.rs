use vstd::prelude::*;

verus! {

/// Indices of the general-purpose registers, in x86 order.
pub const A: usize = 0;
pub const C: usize = 1;
pub const D: usize = 2;
pub const B: usize = 3;
pub const SP: usize = 4;
pub const BP: usize = 5;
pub const SI: usize = 6;
pub const DI: usize = 7;

/// The name of the low 16 bits of register `i`.
pub open spec fn reg16_name_of(i: int) -> Seq<char> {
    if i == 0 {
        seq!['a', 'x']
    } else if i == 1 {
        seq!['c', 'x']
    } else if i == 2 {
        seq!['d', 'x']
    } else if i == 3 {
        seq!['b', 'x']
    } else if i == 4 {
        seq!['s', 'p']
    } else if i == 5 {
        seq!['b', 'p']
    } else if i == 6 {
        seq!['s', 'i']
    } else {
        seq!['d', 'i']
    }
}

/// The name of the whole 32-bit register `i`.
pub open spec fn reg32_name_of(i: int) -> Seq<char> {
    seq!['e'] + reg16_name_of(i)
}

/// The name of the low 16 bits of register `i`.
pub fn reg16_name(i: usize) -> (r: &'static str)
    requires
        i < 8,
    ensures
        r@ == reg16_name_of(i as int),
{
    match i {
        0 => {
            proof {
                reveal_strlit("ax");
            }
            "ax"
        },
        1 => {
            proof {
                reveal_strlit("cx");
            }
            "cx"
        },
        2 => {
            proof {
                reveal_strlit("dx");
            }
            "dx"
        },
        3 => {
            proof {
                reveal_strlit("bx");
            }
            "bx"
        },
        4 => {
            proof {
                reveal_strlit("sp");
            }
            "sp"
        },
        5 => {
            proof {
                reveal_strlit("bp");
            }
            "bp"
        },
        6 => {
            proof {
                reveal_strlit("si");
            }
            "si"
        },
        _ => {
            proof {
                reveal_strlit("di");
            }
            "di"
        },
    }
}

/// The name of the whole 32-bit register `i`.
pub fn reg32_name(i: usize) -> (r: &'static str)
    requires
        i < 8,
    ensures
        r@ == reg32_name_of(i as int),
{
    match i {
        0 => {
            proof {
                reveal_strlit("eax");
            }
            "eax"
        },
        1 => {
            proof {
                reveal_strlit("ecx");
            }
            "ecx"
        },
        2 => {
            proof {
                reveal_strlit("edx");
            }
            "edx"
        },
        3 => {
            proof {
                reveal_strlit("ebx");
            }
            "ebx"
        },
        4 => {
            proof {
                reveal_strlit("esp");
            }
            "esp"
        },
        5 => {
            proof {
                reveal_strlit("ebp");
            }
            "ebp"
        },
        6 => {
            proof {
                reveal_strlit("esi");
            }
            "esi"
        },
        _ => {
            proof {
                reveal_strlit("edi");
            }
            "edi"
        },
    }
}

} // verus!
