use classic_bpf::bpf;
use classic_bpf::BPFFProg;
use classic_bpf::BPFFilter;
use classic_bpf::ConstructionError;

fn icmpv6_filter() -> [BPFFilter; 4] {
    [
        BPFFilter::bpf_stmt(bpf::LD() | bpf::B() | bpf::ABS(), 6),
        BPFFilter::bpf_jump(bpf::JMP() | bpf::JEQ() | bpf::K(), 58, 0, 1),
        BPFFilter::bpf_stmt(bpf::RET() | bpf::K(), u32::MAX),
        BPFFilter::bpf_stmt(bpf::RET() | bpf::K(), 0),
    ]
}

fn accept_all(n: usize) -> Vec<BPFFilter> {
    let mut filters = Vec::with_capacity(n);
    for i in 0..n {
        filters.push(BPFFilter::bpf_stmt(bpf::RET() | bpf::K(), i as u32));
    }
    filters
}

#[test]
fn program_records_length_and_instructions() {
    let filters = icmpv6_filter();
    let program = BPFFProg::new(&filters).unwrap();
    assert_eq!(program.len(), 4);
    assert_eq!(program.filters().len(), 4);
    for i in 0..4 {
        assert_eq!(program.filters()[i], filters[i]);
    }
}

#[test]
fn program_of_one_instruction() {
    let filters = accept_all(1);
    let program = BPFFProg::new(&filters).unwrap();
    assert_eq!(program.len(), 1);
    assert_eq!(program.filters(), &filters[..]);
}

#[test]
fn program_of_the_greatest_length() {
    let filters = accept_all(65535);
    let program = BPFFProg::new(&filters).unwrap();
    assert_eq!(program.len(), 65535);
    assert_eq!(program.filters(), &filters[..]);
    assert_eq!(program.filters()[65534].k(), 65534);
}

#[test]
fn empty_sequence_is_refused() {
    let filters: Vec<BPFFilter> = Vec::new();
    let made = BPFFProg::new(&filters);
    assert!(matches!(made, Err(ConstructionError::Empty)));
}

#[test]
fn sequence_beyond_sixteen_bits_is_refused() {
    let filters = accept_all(65536);
    let made = BPFFProg::new(&filters);
    assert!(matches!(made, Err(ConstructionError::TooLong)));
    let filters = accept_all(70000);
    let made = BPFFProg::new(&filters);
    assert!(matches!(made, Err(ConstructionError::TooLong)));
}

#[test]
fn program_borrows_without_copying() {
    let filters = icmpv6_filter();
    let program = BPFFProg::new(&filters).unwrap();
    assert!(std::ptr::eq(program.filters().as_ptr(), filters.as_ptr()));
    let again = BPFFProg::new(&filters).unwrap();
    assert_eq!(again.len(), program.len());
}
