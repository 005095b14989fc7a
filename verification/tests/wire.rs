use classic_bpf::bpf;
use classic_bpf::wire::push_u16;
use classic_bpf::wire::push_u32;
use classic_bpf::BPFFProg;
use classic_bpf::BPFFilter;
use classic_bpf::ByteOrder;

fn icmpv6_filter() -> [BPFFilter; 4] {
    [
        BPFFilter::bpf_stmt(bpf::LD() | bpf::B() | bpf::ABS(), 6),
        BPFFilter::bpf_jump(bpf::JMP() | bpf::JEQ() | bpf::K(), 58, 0, 1),
        BPFFilter::bpf_stmt(bpf::RET() | bpf::K(), u32::MAX),
        BPFFilter::bpf_stmt(bpf::RET() | bpf::K(), 0),
    ]
}

#[test]
fn sixteen_bits_in_both_orders() {
    let mut out = vec![0xaa];
    push_u16(&mut out, 0x1234, ByteOrder::Little);
    push_u16(&mut out, 0x1234, ByteOrder::Big);
    assert_eq!(out, vec![0xaa, 0x34, 0x12, 0x12, 0x34]);
    let mut out = Vec::new();
    push_u16(&mut out, 0xffff, ByteOrder::Little);
    push_u16(&mut out, 0, ByteOrder::Big);
    assert_eq!(out, vec![0xff, 0xff, 0, 0]);
}

#[test]
fn thirty_two_bits_in_both_orders() {
    let mut out = Vec::new();
    push_u32(&mut out, 0x1234_5678, ByteOrder::Little);
    assert_eq!(out, vec![0x78, 0x56, 0x34, 0x12]);
    assert_eq!(out, 0x1234_5678u32.to_le_bytes().to_vec());
    let mut out = Vec::new();
    push_u32(&mut out, 0x1234_5678, ByteOrder::Big);
    assert_eq!(out, vec![0x12, 0x34, 0x56, 0x78]);
    assert_eq!(out, 0x1234_5678u32.to_be_bytes().to_vec());
    let mut out = Vec::new();
    push_u32(&mut out, u32::MAX, ByteOrder::Big);
    push_u32(&mut out, 1, ByteOrder::Little);
    assert_eq!(out, vec![0xff, 0xff, 0xff, 0xff, 1, 0, 0, 0]);
}

#[test]
fn instruction_is_eight_bytes_in_field_order() {
    let item = BPFFilter::bpf_jump(bpf::JMP() | bpf::JEQ() | bpf::K(), 0x0102_0304, 5, 6);
    assert_eq!(
        item.to_bytes(ByteOrder::Little),
        vec![0x15, 0x00, 5, 6, 0x04, 0x03, 0x02, 0x01]
    );
    assert_eq!(
        item.to_bytes(ByteOrder::Big),
        vec![0x00, 0x15, 5, 6, 0x01, 0x02, 0x03, 0x04]
    );
}

#[test]
fn instruction_is_appended_after_what_is_there() {
    let item = BPFFilter::bpf_stmt(bpf::LD() | bpf::B() | bpf::ABS(), 6);
    let mut out = vec![1, 2, 3];
    item.write_to(&mut out, ByteOrder::Little);
    assert_eq!(out, vec![1, 2, 3, 0x30, 0, 0, 0, 6, 0, 0, 0]);
}

#[test]
fn program_is_its_instructions_without_gaps() {
    let filters = icmpv6_filter();
    let program = BPFFProg::new(&filters).unwrap();
    let little = program.to_bytes(ByteOrder::Little);
    assert_eq!(little.len(), 32);
    assert_eq!(
        little,
        vec![
            0x30, 0x00, 0, 0, 6, 0, 0, 0, //
            0x15, 0x00, 0, 1, 58, 0, 0, 0, //
            0x06, 0x00, 0, 0, 0xff, 0xff, 0xff, 0xff, //
            0x06, 0x00, 0, 0, 0, 0, 0, 0,
        ]
    );
    let big = program.to_bytes(ByteOrder::Big);
    assert_eq!(
        big,
        vec![
            0x00, 0x30, 0, 0, 0, 0, 0, 6, //
            0x00, 0x15, 0, 1, 0, 0, 0, 58, //
            0x00, 0x06, 0, 0, 0xff, 0xff, 0xff, 0xff, //
            0x00, 0x06, 0, 0, 0, 0, 0, 0,
        ]
    );
}

#[test]
fn program_bytes_are_the_instruction_bytes_in_turn() {
    let filters = icmpv6_filter();
    let program = BPFFProg::new(&filters).unwrap();
    for order in [ByteOrder::Little, ByteOrder::Big] {
        let image = program.to_bytes(order);
        assert_eq!(image.len(), 8 * program.len() as usize);
        for (i, filter) in filters.iter().enumerate() {
            assert_eq!(&image[8 * i..8 * i + 8], &filter.to_bytes(order)[..]);
        }
    }
}

#[test]
fn image_of_one_tells_the_order() {
    assert_eq!(ByteOrder::of_image([1, 0]), Some(ByteOrder::Little));
    assert_eq!(ByteOrder::of_image([0, 1]), Some(ByteOrder::Big));
    assert_eq!(ByteOrder::of_image([0, 0]), None);
    assert_eq!(ByteOrder::of_image([1, 1]), None);
    assert_eq!(ByteOrder::of_image([2, 0]), None);
}

#[test]
fn native_order_is_that_of_this_machine() {
    let expected = if 1u32.to_ne_bytes()[0] == 1 { ByteOrder::Little } else { ByteOrder::Big };
    assert_eq!(ByteOrder::native(), expected);
}

#[test]
fn native_image_is_the_memory_of_the_fields() {
    let item = BPFFilter::bpf_jump(bpf::JMP() | bpf::JGE() | bpf::X(), 0x0a0b_0c0d, 2, 9);
    let mut expected = Vec::new();
    expected.extend_from_slice(&item.code().to_ne_bytes());
    expected.push(item.jt());
    expected.push(item.jf());
    expected.extend_from_slice(&item.k().to_ne_bytes());
    assert_eq!(item.to_bytes(ByteOrder::native()), expected);
}
