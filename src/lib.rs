//! A small x86 decoder and interpreter: one shared decoding front end,
//! feeding a text renderer and an executor over a tiny machine state.

pub mod reader;
pub mod prefix;
pub mod modrm;
pub mod reg;
pub mod text;
pub mod decode;
pub mod disasm;
pub mod vm;
pub mod run;
pub mod dbg;
pub mod lemmas;
