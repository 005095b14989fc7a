use classic_bpf::bpf;
use classic_bpf::BPFCode;
use classic_bpf::BPFFilter;

#[test]
fn test_bpf_stmt() {
    let item = BPFFilter::bpf_stmt(bpf::LD() | bpf::B() | bpf::ABS(), 6);
    assert_eq!(item.code(), 0x30);
    assert_eq!(item.jt(), 0);
    assert_eq!(item.jf(), 0);
    assert_eq!(item.k(), 0x6);
}

#[test]
fn test_bpf_jump() {
    let item = BPFFilter::bpf_jump(
        bpf::JMP() | bpf::JEQ() | bpf::K(),
        libc::IPPROTO_ICMPV6 as u32,
        0,
        3,
    );
    assert_eq!(item.code(), 0x15);
    assert_eq!(item.jt(), 0);
    assert_eq!(item.jf(), 0x3);
    assert_eq!(item.k(), 0x3a);
}

#[test]
fn class_fragments_have_their_numbers() {
    assert_eq!(bpf::LD().value(), 0x00);
    assert_eq!(bpf::LDX().value(), 0x01);
    assert_eq!(bpf::ST().value(), 0x02);
    assert_eq!(bpf::STX().value(), 0x03);
    assert_eq!(bpf::ALU().value(), 0x04);
    assert_eq!(bpf::JMP().value(), 0x05);
    assert_eq!(bpf::RET().value(), 0x06);
    assert_eq!(bpf::MISC().value(), 0x07);
}

#[test]
fn load_modifiers_unite_by_bitwise_or() {
    assert_eq!((bpf::LD() | bpf::W()).value(), 0x00);
    assert_eq!((bpf::LD() | bpf::H()).value(), 0x08);
    assert_eq!((bpf::LD() | bpf::B()).value(), 0x10);
    assert_eq!((bpf::LD() | bpf::IMM()).value(), 0x00);
    assert_eq!((bpf::LD() | bpf::ABS()).value(), 0x20);
    assert_eq!((bpf::LD() | bpf::IND()).value(), 0x40);
    assert_eq!((bpf::LD() | bpf::MEM()).value(), 0x60);
    assert_eq!((bpf::LD() | bpf::LEN()).value(), 0x80);
    assert_eq!((bpf::LDX() | bpf::B() | bpf::MSH()).value(), 0xb1);
    assert_eq!((bpf::LDX() | bpf::W() | bpf::IMM()).value(), 0x01);
    assert_eq!((bpf::LD() | bpf::H() | bpf::IND()).value(), 0x48);
}

#[test]
fn union_does_not_depend_on_the_order_of_modifiers() {
    let one = bpf::LD() | bpf::B() | bpf::ABS();
    let other = bpf::LD() | bpf::ABS() | bpf::B();
    assert_eq!(one.value(), other.value());
    assert_eq!(one.value(), 0x00 | 0x10 | 0x20);
}

#[test]
fn arithmetic_modifiers_unite_by_bitwise_or() {
    assert_eq!((bpf::ALU() | bpf::ADD() | bpf::K()).value(), 0x04);
    assert_eq!((bpf::ALU() | bpf::SUB() | bpf::K()).value(), 0x14);
    assert_eq!((bpf::ALU() | bpf::MUL() | bpf::X()).value(), 0x2c);
    assert_eq!((bpf::ALU() | bpf::DIV() | bpf::X()).value(), 0x3c);
    assert_eq!((bpf::ALU() | bpf::OR() | bpf::K()).value(), 0x44);
    assert_eq!((bpf::ALU() | bpf::AND() | bpf::K()).value(), 0x54);
    assert_eq!((bpf::ALU() | bpf::LSH() | bpf::K()).value(), 0x64);
    assert_eq!((bpf::ALU() | bpf::RSH() | bpf::X()).value(), 0x7c);
    assert_eq!((bpf::ALU() | bpf::NEG()).value(), 0x84);
}

#[test]
fn jump_modifiers_unite_by_bitwise_or() {
    assert_eq!((bpf::JMP() | bpf::JA()).value(), 0x05);
    assert_eq!((bpf::JMP() | bpf::JEQ() | bpf::K()).value(), 0x15);
    assert_eq!((bpf::JMP() | bpf::JGT() | bpf::X()).value(), 0x2d);
    assert_eq!((bpf::JMP() | bpf::JGE() | bpf::K()).value(), 0x35);
    assert_eq!((bpf::JMP() | bpf::JSET() | bpf::X()).value(), 0x4d);
}

#[test]
fn return_and_transfer_modifiers_unite_by_bitwise_or() {
    assert_eq!((bpf::RET() | bpf::K()).value(), 0x06);
    assert_eq!((bpf::RET() | bpf::X()).value(), 0x0e);
    assert_eq!((bpf::RET() | bpf::A()).value(), 0x0e);
    assert_eq!((bpf::MISC() | bpf::TAX()).value(), 0x07);
    assert_eq!((bpf::MISC() | bpf::TXA()).value(), 0x87);
}

#[test]
fn the_class_survives_every_union() {
    assert_eq!((bpf::LDX() | bpf::B() | bpf::MSH()).value() & 0x07, 0x01);
    assert_eq!((bpf::ALU() | bpf::NEG() | bpf::X()).value() & 0x07, 0x04);
    assert_eq!((bpf::JMP() | bpf::JSET() | bpf::X()).value() & 0x07, 0x05);
    assert_eq!((bpf::RET() | bpf::A()).value() & 0x07, 0x06);
    assert_eq!((bpf::MISC() | bpf::TXA()).value() & 0x07, 0x07);
}

#[test]
fn statement_takes_any_class() {
    let store = BPFFilter::bpf_stmt(bpf::ST(), 3);
    assert_eq!(store.code(), 0x02);
    assert_eq!(store.k(), 3);
    let ret = BPFFilter::bpf_stmt(bpf::RET() | bpf::K(), u32::MAX);
    assert_eq!(ret.code(), 0x06);
    assert_eq!(ret.jt(), 0);
    assert_eq!(ret.jf(), 0);
    assert_eq!(ret.k(), 0xffff_ffff);
    let transfer = BPFFilter::bpf_stmt(bpf::MISC() | bpf::TXA(), 0);
    assert_eq!(transfer.code(), 0x87);
}

#[test]
fn jump_keeps_both_offsets_and_the_immediate() {
    let item = BPFFilter::bpf_jump(bpf::JMP() | bpf::JGT() | bpf::X(), 0xdead_beef, 255, 7);
    assert_eq!(item.code(), 0x2d);
    assert_eq!(item.jt(), 255);
    assert_eq!(item.jf(), 7);
    assert_eq!(item.k(), 0xdead_beef);
}

#[test]
fn equal_instructions_compare_equal() {
    let one = BPFFilter::bpf_stmt(bpf::LD() | bpf::W() | bpf::ABS(), 12);
    let same = BPFFilter::bpf_stmt(bpf::LD() | bpf::ABS() | bpf::W(), 12);
    let other = BPFFilter::bpf_stmt(bpf::LD() | bpf::W() | bpf::ABS(), 13);
    assert_eq!(one, same);
    assert_ne!(one, other);
}
