use x86emu::decode::{decode_inst, Decoded, Fault, Inst, OpcodeTable, Shape};
use x86emu::disasm::{disasm_inst, disasm_opcode, disasm_or_unknown, render_inst};
use x86emu::modrm::Modrm;
use x86emu::prefix::{parse_prefixes, prefix_flag, ADDR_SIZE, CS_OV, LOCK, OP_SIZE, REP};
use x86emu::reader::{u16_from_le, Reader};
use x86emu::reg::{reg16_name, reg32_name};
use x86emu::text::{push_decimal, push_hex};

fn decode(bytes: &[u8]) -> Result<Decoded, Fault> {
    let table = OpcodeTable::disasm_table();
    let mut r = Reader::new(bytes);
    decode_inst(&table, &mut r)
}

fn text(bytes: &[u8]) -> Result<String, Fault> {
    let table = OpcodeTable::disasm_table();
    let mut r = Reader::new(bytes);
    disasm_inst(&table, &mut r)
}

#[test]
fn reader_reads_and_advances() {
    let bytes = [1u8, 2, 3, 4, 5];
    let mut r = Reader::new(&bytes);
    assert_eq!(r.peak_u8(), Some(1));
    assert_eq!(r.read_u8(), Some(1));
    assert_eq!(r.offset_from(), 1);
    assert_eq!(r.read_u16(), Some(0x0302));
    assert_eq!(r.read(2), Some(&bytes[3..5]));
    assert!(!r.has_left());
    assert_eq!(r.offset_from(), 5);
}

#[test]
fn reader_failed_read_consumes_nothing() {
    let bytes = [0xAAu8, 0xBB];
    let mut r = Reader::at(&bytes, 1);
    assert_eq!(r.read_u16(), None);
    assert_eq!(r.offset_from(), 1);
    assert_eq!(r.read(3), None);
    assert_eq!(r.offset_from(), 1);
    assert_eq!(r.read_u8(), Some(0xBB));
    assert_eq!(r.read_u8(), None);
    assert_eq!(r.peak_u8(), None);
}

#[test]
fn reader_eat_stops_at_end() {
    let bytes = [0u8; 4];
    let mut r = Reader::new(&bytes);
    r.eat(1);
    assert_eq!(r.offset_from(), 1);
    r.eat(10);
    assert_eq!(r.offset_from(), 4);
    assert!(!r.has_left());
}

#[test]
fn little_endian_pairs() {
    assert_eq!(u16_from_le(0x05, 0x00), 5);
    assert_eq!(u16_from_le(0x34, 0x12), 0x1234);
    assert_eq!(u16_from_le(0xFF, 0xFF), 0xFFFF);
}

#[test]
fn modrm_fields() {
    let m = Modrm(0xC8);
    assert_eq!(m.modb(), 3);
    assert_eq!(m.reg(), 1);
    assert_eq!(m.rm(), 0);
    let m = Modrm(0b01_101_110);
    assert_eq!(m.modb(), 1);
    assert_eq!(m.reg(), 5);
    assert_eq!(m.rm(), 6);
}

#[test]
fn prefix_flags() {
    assert_eq!(prefix_flag(0xF0), LOCK);
    assert_eq!(prefix_flag(0xF3), REP);
    assert_eq!(prefix_flag(0x2E), CS_OV);
    assert_eq!(prefix_flag(0x66), OP_SIZE);
    assert_eq!(prefix_flag(0x67), ADDR_SIZE);
    assert_eq!(prefix_flag(0x90), 0);
    assert_eq!(prefix_flag(0xB8), 0);
}

#[test]
fn duplicate_prefix_is_idempotent() {
    let twice = [0xF0u8, 0xF0, 0x01, 0xC8];
    let once = [0xF0u8, 0x01, 0xC8];
    let mut a = Reader::new(&twice);
    let mut b = Reader::new(&once);
    let pa = parse_prefixes(&mut a);
    let pb = parse_prefixes(&mut b);
    assert_eq!(pa, Some(LOCK));
    assert_eq!(pa, pb);
    assert_eq!(a.offset_from(), 2);
    assert_eq!(b.offset_from(), 1);
    let da = decode(&twice).unwrap();
    let db = decode(&once).unwrap();
    assert_eq!(da.prefixes, db.prefixes);
    assert_eq!(da.inst, db.inst);
    assert_eq!(da.len, 4);
    assert_eq!(db.len, 3);
}

#[test]
fn prefixes_accumulate_as_a_set() {
    let bytes = [0x2Eu8, 0xF3, 0x66, 0x2E, 0xB8, 0x01, 0x00];
    let mut r = Reader::new(&bytes);
    assert_eq!(parse_prefixes(&mut r), Some(CS_OV | REP | OP_SIZE));
    assert_eq!(r.offset_from(), 4);
}

#[test]
fn prefixes_only_is_truncated() {
    let bytes = [0xF0u8, 0xF2];
    let mut r = Reader::new(&bytes);
    assert_eq!(parse_prefixes(&mut r), None);
    assert_eq!(r.offset_from(), 0);
    assert_eq!(decode(&bytes), Err(Fault::Truncated));
    assert_eq!(decode(&[]), Err(Fault::Truncated));
}

#[test]
fn short_mov_is_truncated() {
    assert_eq!(decode(&[0xB8]), Err(Fault::Truncated));
    assert_eq!(decode(&[0xB8, 0x05]), Err(Fault::Truncated));
    assert_eq!(decode(&[0xF3, 0xBB, 0x05]), Err(Fault::Truncated));
    assert_eq!(text(&[0xB8, 0x05]), Err(Fault::Truncated));
}

#[test]
fn short_add_and_cmp_are_truncated() {
    assert_eq!(decode(&[0x01]), Err(Fault::Truncated));
    assert_eq!(decode(&[0x3D, 0x01]), Err(Fault::Truncated));
}

#[test]
fn failed_decode_leaves_cursor() {
    let table = OpcodeTable::disasm_table();
    let bytes = [0xF0u8, 0xB8, 0x05];
    let mut r = Reader::new(&bytes);
    assert_eq!(decode_inst(&table, &mut r), Err(Fault::Truncated));
    assert_eq!(r.offset_from(), 0);
}

#[test]
fn decode_mov_for_every_register() {
    for op in 0xB8u8..=0xBF {
        let d = decode(&[op, 0x34, 0x12]).unwrap();
        assert_eq!(d.inst, Inst::MovImm16 { reg: op - 0xB8, imm: 0x1234 });
        assert_eq!(d.opcode, op);
        assert_eq!(d.len, 3);
        assert_eq!(d.prefixes, 0);
    }
}

#[test]
fn render_mov() {
    assert_eq!(text(&[0xB8, 0x05, 0x00]).unwrap(), "mov ax, 5");
    assert_eq!(text(&[0xBF, 0xFF, 0xFF]).unwrap(), "mov di, 65535");
    assert_eq!(text(&[0xBC, 0x00, 0x00]).unwrap(), "mov sp, 0");
    assert_eq!(text(&[0xB9, 0x0A, 0x01]).unwrap(), "mov cx, 266");
}

#[test]
fn render_add() {
    assert_eq!(text(&[0x01, 0xC8]).unwrap(), "add ax, cx");
    assert_eq!(text(&[0x01, 0xFF]).unwrap(), "add di, di");
    assert_eq!(text(&[0x01, 0xD3]).unwrap(), "add bx, dx");
}

#[test]
fn render_cmp() {
    assert_eq!(text(&[0x3D, 0x07, 0x00]).unwrap(), "cmp ax, 7");
    assert_eq!(text(&[0x3D, 0x10, 0x27]).unwrap(), "cmp ax, 10000");
}

#[test]
fn add_with_memory_mode_is_refused() {
    assert_eq!(decode(&[0x01, 0x00]), Err(Fault::UnsupportedMode(0)));
    assert_eq!(decode(&[0x01, 0x48]), Err(Fault::UnsupportedMode(1)));
    assert_eq!(text(&[0x01, 0x88]), Err(Fault::UnsupportedMode(2)));
}

#[test]
fn unmapped_opcode_is_named() {
    assert_eq!(decode(&[0x90]), Err(Fault::UnsupportedOpcode(0x90)));
    assert_eq!(decode(&[0x0F, 0x05]), Err(Fault::UnsupportedOpcode(0x0F)));
    assert_eq!(decode(&[0xF0, 0xC3]), Err(Fault::UnsupportedOpcode(0xC3)));
    assert_eq!(text(&[0x90]), Err(Fault::UnsupportedOpcode(0x90)));
}

#[test]
fn best_effort_text() {
    let table = OpcodeTable::disasm_table();
    let bytes = [0x90u8];
    let mut r = Reader::new(&bytes);
    assert_eq!(disasm_or_unknown(&table, &mut r), "???");
    let bytes = [0xB8u8, 0x05, 0x00];
    let mut r = Reader::new(&bytes);
    assert_eq!(disasm_or_unknown(&table, &mut r), "mov ax, 5");
    assert_eq!(r.offset_from(), 3);
}

#[test]
fn disasm_opcode_after_prefixes() {
    let table = OpcodeTable::disasm_table();
    let bytes = [0xF0u8, 0x01, 0xC8];
    let mut r = Reader::new(&bytes);
    let p = parse_prefixes(&mut r).unwrap();
    assert_eq!(disasm_opcode(&table, &mut r, p).unwrap(), "add ax, cx");
    assert_eq!(r.offset_from(), 3);
}

#[test]
fn substituted_table_with_one_opcode() {
    let mut table = OpcodeTable::empty();
    table.set(0xB8, Some(Shape::MovRegImm16));
    assert_eq!(table.lookup(0xB8), Some(Shape::MovRegImm16));
    assert_eq!(table.lookup(0xB9), None);
    let bytes = [0xB9u8, 0x01, 0x00];
    let mut r = Reader::new(&bytes);
    assert_eq!(decode_inst(&table, &mut r), Err(Fault::UnsupportedOpcode(0xB9)));
    let bytes = [0x01u8, 0xC8];
    let mut r = Reader::new(&bytes);
    assert_eq!(decode_inst(&table, &mut r), Err(Fault::UnsupportedOpcode(0x01)));
}

#[test]
fn exec_table_lacks_cmp() {
    let table = OpcodeTable::exec_table();
    assert_eq!(table.lookup(0x3D), None);
    assert_eq!(table.lookup(0x01), Some(Shape::AddRmReg16));
    assert_eq!(table.lookup(0xBF), Some(Shape::MovRegImm16));
    assert_eq!(OpcodeTable::disasm_table().lookup(0x3D), Some(Shape::CmpAxImm16));
}

#[test]
fn register_names() {
    assert_eq!(reg16_name(0), "ax");
    assert_eq!(reg16_name(4), "sp");
    assert_eq!(reg16_name(7), "di");
    assert_eq!(reg32_name(1), "ecx");
    assert_eq!(reg32_name(6), "esi");
    assert_eq!(render_inst(Inst::AddRmReg16 { rm: 5, reg: 6 }), "add bp, si");
}

#[test]
fn number_text() {
    let mut s = String::new();
    push_decimal(&mut s, 0);
    assert_eq!(s, "0");
    let mut s = String::from("n=");
    push_decimal(&mut s, 4294967295);
    assert_eq!(s, "n=4294967295");
    let mut s = String::new();
    push_hex(&mut s, 0xDEADBEEF, 8);
    assert_eq!(s, "DEADBEEF");
    let mut s = String::new();
    push_hex(&mut s, 5, 8);
    assert_eq!(s, "00000005");
    let mut s = String::new();
    push_hex(&mut s, 0x1234, 2);
    assert_eq!(s, "34");
}
