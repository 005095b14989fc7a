//! Byte images of integers, in either byte order.

use crate::bpf_base::Instruction;
use vstd::prelude::*;

verus! {

/// The order in which the bytes of a multi-byte integer lie in memory.
#[derive(Clone, Copy, Debug, PartialEq, Eq, Structural)]
pub enum ByteOrder {
    /// The least significant byte comes first.
    Little,
    /// The most significant byte comes first.
    Big,
}

/// The two bytes of `x` in the given order.
pub open spec fn u16_bytes(x: u16, order: ByteOrder) -> Seq<u8> {
    let b0 = (x % 0x100) as u8;
    let b1 = (x / 0x100) as u8;
    match order {
        ByteOrder::Little => seq![b0, b1],
        ByteOrder::Big => seq![b1, b0],
    }
}

/// The four bytes of `x` in the given order.
pub open spec fn u32_bytes(x: u32, order: ByteOrder) -> Seq<u8> {
    let b0 = (x % 0x100) as u8;
    let b1 = (x / 0x100 % 0x100) as u8;
    let b2 = (x / 0x1_0000 % 0x100) as u8;
    let b3 = (x / 0x100_0000) as u8;
    match order {
        ByteOrder::Little => seq![b0, b1, b2, b3],
        ByteOrder::Big => seq![b3, b2, b1, b0],
    }
}

/// The integer whose image in the given order is the two bytes at `at`.
pub open spec fn u16_at(bytes: Seq<u8>, at: int, order: ByteOrder) -> u16 {
    match order {
        ByteOrder::Little => (bytes[at] + 0x100 * bytes[at + 1]) as u16,
        ByteOrder::Big => (bytes[at + 1] + 0x100 * bytes[at]) as u16,
    }
}

/// The integer whose image in the given order is the four bytes at `at`.
pub open spec fn u32_at(bytes: Seq<u8>, at: int, order: ByteOrder) -> u32 {
    match order {
        ByteOrder::Little => (bytes[at] + 0x100 * bytes[at + 1] + 0x1_0000 * bytes[at + 2]
            + 0x100_0000 * bytes[at + 3]) as u32,
        ByteOrder::Big => (bytes[at + 3] + 0x100 * bytes[at + 2] + 0x1_0000 * bytes[at + 1]
            + 0x100_0000 * bytes[at]) as u32,
    }
}

/// Reading back the image of a 16-bit integer gives the integer.
pub proof fn u16_bytes_read_back(x: u16, order: ByteOrder)
    ensures
        u16_bytes(x, order).len() == 2,
        u16_at(u16_bytes(x, order), 0, order) == x,
{
}

/// Reading back the image of a 32-bit integer gives the integer.
pub proof fn u32_bytes_read_back(x: u32, order: ByteOrder)
    ensures
        u32_bytes(x, order).len() == 4,
        u32_at(u32_bytes(x, order), 0, order) == x,
{
}

/// Appends the two bytes of `x` to `out`.
pub fn push_u16(out: &mut Vec<u8>, x: u16, order: ByteOrder)
    ensures
        final(out)@ == old(out)@ + u16_bytes(x, order),
{
    let b0: u8 = (x % 0x100) as u8;
    let b1: u8 = (x / 0x100) as u8;
    match order {
        ByteOrder::Little => {
            out.push(b0);
            out.push(b1);
        },
        ByteOrder::Big => {
            out.push(b1);
            out.push(b0);
        },
    }
}

/// Appends the four bytes of `x` to `out`.
pub fn push_u32(out: &mut Vec<u8>, x: u32, order: ByteOrder)
    ensures
        final(out)@ == old(out)@ + u32_bytes(x, order),
{
    let b0: u8 = (x % 0x100) as u8;
    let b1: u8 = (x / 0x100 % 0x100) as u8;
    let b2: u8 = (x / 0x1_0000 % 0x100) as u8;
    let b3: u8 = (x / 0x100_0000) as u8;
    match order {
        ByteOrder::Little => {
            out.push(b0);
            out.push(b1);
            out.push(b2);
            out.push(b3);
        },
        ByteOrder::Big => {
            out.push(b3);
            out.push(b2);
            out.push(b1);
            out.push(b0);
        },
    }
}

/// The eight bytes of an instruction: the opcode in two bytes, the two jump
/// offsets in one byte each, the immediate in four bytes.
pub open spec fn instruction_bytes(insn: Instruction, order: ByteOrder) -> Seq<u8> {
    u16_bytes(insn.opcode, order) + seq![insn.jump_true, insn.jump_false] + u32_bytes(
        insn.immediate,
        order,
    )
}

/// The bytes of a sequence of instructions, laid out without gaps: byte `i`
/// is byte `i % 8` of instruction `i / 8`.
pub open spec fn program_bytes(program: Seq<Instruction>, order: ByteOrder) -> Seq<u8> {
    Seq::new(8 * program.len(), |i: int| instruction_bytes(program[i / 8], order)[i % 8])
}

/// The instruction whose image in the given order is the eight bytes at
/// `at`.
pub open spec fn instruction_at(bytes: Seq<u8>, at: int, order: ByteOrder) -> Instruction {
    Instruction {
        opcode: u16_at(bytes, at, order),
        jump_true: bytes[at + 2],
        jump_false: bytes[at + 3],
        immediate: u32_at(bytes, at + 4, order),
    }
}

/// An instruction takes eight bytes, and reading them back gives the
/// instruction: the image loses nothing.
pub proof fn instruction_bytes_read_back(insn: Instruction, order: ByteOrder)
    ensures
        instruction_bytes(insn, order).len() == 8,
        instruction_at(instruction_bytes(insn, order), 0, order) == insn,
{
}

/// A program of `n` instructions takes `8 * n` bytes, and instruction `i`
/// is read back from the eight bytes at `8 * i`.
pub proof fn program_bytes_read_back(program: Seq<Instruction>, order: ByteOrder)
    ensures
        program_bytes(program, order).len() == 8 * program.len(),
        forall|i: int|
            0 <= i < program.len() ==> instruction_at(
                program_bytes(program, order),
                8 * i,
                order,
            ) == #[trigger] program[i],
{
    let image = program_bytes(program, order);
    assert forall|i: int| 0 <= i < program.len() implies instruction_at(image, 8 * i, order)
        == #[trigger] program[i] by {
        let insn = program[i];
        let bytes = instruction_bytes(insn, order);
        instruction_bytes_read_back(insn, order);
        assert forall|j: int| 0 <= j < 8 implies #[trigger] image[8 * i + j] == bytes[j] by {
            assert((8 * i + j) / 8 == i);
            assert((8 * i + j) % 8 == j);
        }
    }
}

/// Calls `u16::to_ne_bytes`, which gives the bytes of an integer as they
/// lie in the memory of the machine that runs the call. The contract claims
/// that they are the two bytes of `x` in one of the two byte orders, and
/// does not say in which.
#[verifier::external_body]
fn memory_image(x: u16) -> (image: [u8; 2])
    ensures
        image@ == u16_bytes(x, ByteOrder::Little) || image@ == u16_bytes(x, ByteOrder::Big),
{
    x.to_ne_bytes()
}

impl ByteOrder {
    /// The order in which `image` holds the 16-bit integer one, if it holds
    /// it in either order.
    pub fn of_image(image: [u8; 2]) -> (order: Option<ByteOrder>)
        ensures
            order == (if image@ == u16_bytes(1, ByteOrder::Little) {
                Some(ByteOrder::Little)
            } else if image@ == u16_bytes(1, ByteOrder::Big) {
                Some(ByteOrder::Big)
            } else {
                None
            }),
    {
        let first: u8 = image[0];
        let second: u8 = image[1];
        assert(u16_bytes(1, ByteOrder::Little) =~= seq![1u8, 0u8]);
        assert(u16_bytes(1, ByteOrder::Big) =~= seq![0u8, 1u8]);
        assert(image@ =~= seq![first, second]);
        if first == 1 && second == 0 {
            Some(ByteOrder::Little)
        } else if first == 0 && second == 1 {
            Some(ByteOrder::Big)
        } else {
            None
        }
    }

    /// The byte order of the machine that runs the call. It is found by
    /// looking at how the machine lays out the integer one, so nothing is
    /// promised of it beforehand.
    pub fn native() -> ByteOrder {
        ByteOrder::of_image(memory_image(1)).unwrap()
    }
}

} // verus!
