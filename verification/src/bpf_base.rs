//! Instructions and programs.

use crate::bpf::class_of;
use crate::bpf::BPFJmp;
use crate::wire::instruction_bytes;
use crate::wire::program_bytes;
use crate::wire::push_u16;
use crate::wire::push_u32;
use crate::wire::ByteOrder;
use vstd::prelude::*;

verus! {

/// An opcode that is ready to be placed in an instruction.
pub trait BPFCode {
    /// The opcode as a mathematical value.
    spec fn bits(&self) -> u16;

    /// The opcode.
    fn value(&self) -> (v: u16)
        ensures
            v == self.bits(),
    ;
}

/// What an instruction says: the mathematical value of a [`BPFFilter`].
pub struct Instruction {
    /// Instruction class united with its modifiers.
    pub opcode: u16,
    /// Instructions to skip when a jump's comparison holds.
    pub jump_true: u8,
    /// Instructions to skip when a jump's comparison fails.
    pub jump_false: u8,
    /// The literal operand.
    pub immediate: u32,
}

/// One instruction of a classic BPF program. It is immutable once built.
#[derive(Debug, Clone, Copy, PartialEq, Eq, Structural)]
pub struct BPFFilter {
    code: u16,
    jt: u8,
    jf: u8,
    k: u32,
}

impl View for BPFFilter {
    type V = Instruction;

    closed spec fn view(&self) -> Instruction {
        Instruction { opcode: self.code, jump_true: self.jt, jump_false: self.jf, immediate: self.k }
    }
}

impl BPFFilter {
    /// Builds an instruction that does not jump: both offsets are zero.
    #[inline]
    pub fn bpf_stmt<T>(code: T, k: u32) -> (insn: Self) where T: BPFCode
        ensures
            insn@ == (Instruction {
                opcode: code.bits(),
                jump_true: 0,
                jump_false: 0,
                immediate: k,
            }),
    {
        Self { code: code.value(), jt: 0, jf: 0, k }
    }

    /// Builds a jump that skips `jt` instructions when its comparison holds
    /// and `jf` instructions when it fails.
    #[inline]
    pub fn bpf_jump(code: BPFJmp, k: u32, jt: u8, jf: u8) -> (insn: Self)
        ensures
            insn@ == (Instruction {
                opcode: code.bits(),
                jump_true: jt,
                jump_false: jf,
                immediate: k,
            }),
            class_of(insn@.opcode) == 5,
    {
        Self { code: code.value(), jt, jf, k }
    }

    /// The opcode.
    pub fn code(&self) -> (c: u16)
        ensures
            c == self@.opcode,
    {
        self.code
    }

    /// The offset taken when a jump's comparison holds.
    pub fn jt(&self) -> (t: u8)
        ensures
            t == self@.jump_true,
    {
        self.jt
    }

    /// The offset taken when a jump's comparison fails.
    pub fn jf(&self) -> (f: u8)
        ensures
            f == self@.jump_false,
    {
        self.jf
    }

    /// The literal operand.
    pub fn k(&self) -> (k: u32)
        ensures
            k == self@.immediate,
    {
        self.k
    }

    /// Appends the eight bytes of the instruction to `out`.
    pub fn write_to(&self, out: &mut Vec<u8>, order: ByteOrder)
        ensures
            final(out)@ == old(out)@ + instruction_bytes(self@, order),
    {
        push_u16(out, self.code, order);
        out.push(self.jt);
        out.push(self.jf);
        push_u32(out, self.k, order);
    }

    /// The eight bytes of the instruction as the kernel reads them.
    pub fn to_bytes(&self, order: ByteOrder) -> (bytes: Vec<u8>)
        ensures
            bytes@ == instruction_bytes(self@, order),
    {
        let mut bytes: Vec<u8> = Vec::new();
        self.write_to(&mut bytes, order);
        bytes
    }
}

/// Two instructions that say the same are the same instruction.
pub proof fn same_instruction(a: BPFFilter, b: BPFFilter)
    requires
        a@ == b@,
    ensures
        a == b,
{
}

/// What a sequence of instructions says, element by element.
pub open spec fn instructions(filters: Seq<BPFFilter>) -> Seq<Instruction> {
    filters.map_values(|f: BPFFilter| f@)
}

/// Why a program could not be made of a sequence of instructions.
#[derive(Debug, Clone, Copy, PartialEq, Eq, Structural)]
pub enum ConstructionError {
    /// The sequence holds no instruction.
    Empty,
    /// The sequence holds more instructions than a 16-bit length can count.
    TooLong,
}

/// A classic BPF program: a borrowed sequence of instructions and its
/// length. It neither owns nor copies the instructions.
#[derive(Debug, Clone, Copy)]
pub struct BPFFProg<'a> {
    len: u16,
    filters: &'a [BPFFilter],
}

impl<'a> View for BPFFProg<'a> {
    type V = Seq<Instruction>;

    closed spec fn view(&self) -> Seq<Instruction> {
        instructions(self.filters@)
    }
}

impl<'a> BPFFProg<'a> {
    #[verifier::type_invariant]
    spec fn well_formed(self) -> bool {
        self.len == self.filters@.len() && self.len >= 1
    }

    /// Makes a program of a sequence of one to 65535 instructions.
    pub fn new(filters: &'a [BPFFilter]) -> (made: Result<Self, ConstructionError>)
        ensures
            filters@.len() == 0 ==> made == Err::<Self, _>(ConstructionError::Empty),
            filters@.len() > 0xffff ==> made == Err::<Self, _>(ConstructionError::TooLong),
            1 <= filters@.len() <= 0xffff ==> made is Ok,
            made matches Ok(program) ==> {
                &&& program@ == instructions(filters@)
                &&& program@.len() == filters@.len()
                &&& forall|i: int| 0 <= i < filters@.len() ==> program@[i] == filters@[i]@
            },
    {
        let n = filters.len();
        if n == 0 {
            Err(ConstructionError::Empty)
        } else if n > 0xffff {
            Err(ConstructionError::TooLong)
        } else {
            Ok(Self { len: n as u16, filters })
        }
    }

    /// The number of instructions.
    pub fn len(&self) -> (n: u16)
        ensures
            n == self@.len(),
            n >= 1,
    {
        proof {
            use_type_invariant(self);
        }
        self.len
    }

    /// The instructions, as they were borrowed.
    pub fn filters(&self) -> (filters: &'a [BPFFilter])
        ensures
            instructions(filters@) == self@,
    {
        self.filters
    }

    /// The instructions as the kernel reads them: eight bytes each, one
    /// instruction after the other.
    pub fn to_bytes(&self, order: ByteOrder) -> (bytes: Vec<u8>)
        ensures
            bytes@ == program_bytes(self@, order),
    {
        let mut bytes: Vec<u8> = Vec::new();
        let n = self.filters.len();
        let mut i: usize = 0;
        while i < n
            invariant
                n == self.filters@.len(),
                i <= n,
                bytes@ == program_bytes(instructions(self.filters@.take(i as int)), order),
            decreases n - i,
        {
            self.filters[i].write_to(&mut bytes, order);
            proof {
                let done = instructions(self.filters@.take(i as int));
                let next = instructions(self.filters@.take(i + 1));
                assert(next == done.push(self.filters@[i as int]@));
                assert(bytes@ =~= program_bytes(next, order));
            }
            i = i + 1;
        }
        assert(self.filters@.take(n as int) == self.filters@);
        bytes
    }
}

} // verus!
