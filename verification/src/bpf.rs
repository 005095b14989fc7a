//! The opcode taxonomy of classic BPF.
//!
//! An opcode is the bitwise union of one instruction class with the
//! modifiers that the class admits. Every class and every kind of modifier
//! has a type of its own, and `|` is defined only between a class and a
//! modifier that fits it, so an ill-formed union does not type-check.

use crate::bpf_base::BPFCode;
use core::ops::BitOr;
use vstd::prelude::*;
use vstd::std_specs::ops::BitOrSpecImpl;

verus! {

/// The instruction class of an opcode: the value of its three lowest bits.
pub open spec fn class_of(code: u16) -> int {
    code as int % 8
}

/// Fragments unite to the same opcode in whatever order they are taken.
pub proof fn union_in_any_order(class: u16, one: u16, other: u16)
    ensures
        class | one | other == class | other | one,
        class | one | one == class | one,
{
    assert(class | one | other == class | other | one) by (bit_vector);
    assert(class | one | one == class | one) by (bit_vector);
}

/// An opcode of one of the two load classes, with the widths and addressing
/// modes united into it so far.
pub struct BPFLd(u16);

impl BPFLd {
    #[verifier::type_invariant]
    spec fn well_formed(self) -> bool {
        class_of(self.0) <= 1 && self.0 < 0x100
    }
}

impl BPFCode for BPFLd {
    closed spec fn bits(&self) -> u16 {
        self.0
    }

    fn value(&self) -> (v: u16)
        ensures
            class_of(v) <= 1 && v < 0x100,
    {
        proof {
            use_type_invariant(self);
        }
        self.0
    }
}

/// An opcode of one of the two store classes. It takes no modifier.
pub struct BPFSt(u16);

impl BPFSt {
    #[verifier::type_invariant]
    spec fn well_formed(self) -> bool {
        self.0 == 0x02 || self.0 == 0x03
    }
}

impl BPFCode for BPFSt {
    closed spec fn bits(&self) -> u16 {
        self.0
    }

    fn value(&self) -> (v: u16)
        ensures
            v == 0x02 || v == 0x03,
    {
        proof {
            use_type_invariant(self);
        }
        self.0
    }
}

/// An opcode of the arithmetic class, with the operators and operand sources
/// united into it so far.
pub struct BPFAlu(u16);

impl BPFAlu {
    #[verifier::type_invariant]
    spec fn well_formed(self) -> bool {
        class_of(self.0) == 4 && self.0 < 0x100
    }
}

impl BPFCode for BPFAlu {
    closed spec fn bits(&self) -> u16 {
        self.0
    }

    fn value(&self) -> (v: u16)
        ensures
            class_of(v) == 4 && v < 0x100,
    {
        proof {
            use_type_invariant(self);
        }
        self.0
    }
}

/// An opcode of the jump class, with the comparisons and operand sources
/// united into it so far.
pub struct BPFJmp(u16);

impl BPFJmp {
    #[verifier::type_invariant]
    spec fn well_formed(self) -> bool {
        class_of(self.0) == 5 && self.0 < 0x80
    }
}

impl BPFCode for BPFJmp {
    closed spec fn bits(&self) -> u16 {
        self.0
    }

    fn value(&self) -> (v: u16)
        ensures
            class_of(v) == 5 && v < 0x80,
    {
        proof {
            use_type_invariant(self);
        }
        self.0
    }
}

/// An opcode of the return class, with the value sources united into it so
/// far.
pub struct BPFRet(u16);

impl BPFRet {
    #[verifier::type_invariant]
    spec fn well_formed(self) -> bool {
        self.0 == 0x06 || self.0 == 0x0e
    }
}

impl BPFCode for BPFRet {
    closed spec fn bits(&self) -> u16 {
        self.0
    }

    fn value(&self) -> (v: u16)
        ensures
            v == 0x06 || v == 0x0e,
    {
        proof {
            use_type_invariant(self);
        }
        self.0
    }
}

/// An opcode of the miscellaneous class, with the register transfers united
/// into it so far.
pub struct BPFMisc(u16);

impl BPFMisc {
    #[verifier::type_invariant]
    spec fn well_formed(self) -> bool {
        self.0 == 0x07 || self.0 == 0x87
    }
}

impl BPFCode for BPFMisc {
    closed spec fn bits(&self) -> u16 {
        self.0
    }

    fn value(&self) -> (v: u16)
        ensures
            v == 0x07 || v == 0x87,
    {
        proof {
            use_type_invariant(self);
        }
        self.0
    }
}

/// The operand width of a load.
pub struct BPFSize(u16);

impl BPFSize {
    /// The numeric fragment that this modifier contributes to an opcode.
    pub closed spec fn bits(self) -> u16 {
        self.0
    }

    #[verifier::type_invariant]
    spec fn well_formed(self) -> bool {
        self.0 == 0x00 || self.0 == 0x08 || self.0 == 0x10
    }
}

/// The addressing mode of a load.
pub struct BPFMode(u16);

impl BPFMode {
    /// The numeric fragment that this modifier contributes to an opcode.
    pub closed spec fn bits(self) -> u16 {
        self.0
    }

    #[verifier::type_invariant]
    spec fn well_formed(self) -> bool {
        self.0 == 0x00
        || self.0 == 0x20
        || self.0 == 0x40
        || self.0 == 0x60
        || self.0 == 0x80
        || self.0 == 0xa0
    }
}

/// The operator of an arithmetic instruction.
pub struct BPFOp(u16);

impl BPFOp {
    /// The numeric fragment that this modifier contributes to an opcode.
    pub closed spec fn bits(self) -> u16 {
        self.0
    }

    #[verifier::type_invariant]
    spec fn well_formed(self) -> bool {
        self.0 == 0x00
        || self.0 == 0x10
        || self.0 == 0x20
        || self.0 == 0x30
        || self.0 == 0x40
        || self.0 == 0x50
        || self.0 == 0x60
        || self.0 == 0x70
        || self.0 == 0x80
    }
}

/// The comparison of a jump.
pub struct BPFJmpOp(u16);

impl BPFJmpOp {
    /// The numeric fragment that this modifier contributes to an opcode.
    pub closed spec fn bits(self) -> u16 {
        self.0
    }

    #[verifier::type_invariant]
    spec fn well_formed(self) -> bool {
        self.0 == 0x00
        || self.0 == 0x10
        || self.0 == 0x20
        || self.0 == 0x30
        || self.0 == 0x40
    }
}

/// The operand source of an arithmetic, jump or return instruction.
pub struct BPFSrc(u16);

impl BPFSrc {
    /// The numeric fragment that this modifier contributes to an opcode.
    pub closed spec fn bits(self) -> u16 {
        self.0
    }

    #[verifier::type_invariant]
    spec fn well_formed(self) -> bool {
        self.0 == 0x00 || self.0 == 0x08
    }
}

/// The value source that only a return admits.
pub struct BPFRetSrc(u16);

impl BPFRetSrc {
    /// The numeric fragment that this modifier contributes to an opcode.
    pub closed spec fn bits(self) -> u16 {
        self.0
    }

    #[verifier::type_invariant]
    spec fn well_formed(self) -> bool {
        self.0 == 0x08
    }
}

/// The direction of a register transfer.
pub struct BPFMiscOp(u16);

impl BPFMiscOp {
    /// The numeric fragment that this modifier contributes to an opcode.
    pub closed spec fn bits(self) -> u16 {
        self.0
    }

    #[verifier::type_invariant]
    spec fn well_formed(self) -> bool {
        self.0 == 0x00 || self.0 == 0x80
    }
}

impl BitOrSpecImpl<BPFSize> for BPFLd {
    open spec fn obeys_bitor_spec() -> bool {
        true
    }

    open spec fn bitor_req(self, rhs: BPFSize) -> bool {
        true
    }

    closed spec fn bitor_spec(self, rhs: BPFSize) -> BPFLd {
        BPFLd(self.0 | rhs.0)
    }
}

impl BitOr<BPFSize> for BPFLd {
    type Output = BPFLd;

    /// Unites the modifier into the opcode.
    fn bitor(self, rhs: BPFSize) -> (r: BPFLd)
        ensures
            r.bits() == self.bits() | rhs.bits(),
            class_of(r.bits()) == class_of(self.bits()),
    {
        proof {
            use_type_invariant(&self);
            use_type_invariant(&rhs);
        }
        let a: u16 = self.0;
        let b: u16 = rhs.0;
        assert((a | b) % 8 == a % 8 && (a | b) < 0x100) by (bit_vector)
            requires
                a % 8 <= 1 && a < 0x100,
                b == 0x00 || b == 0x08 || b == 0x10,
        ;
        BPFLd(a | b)
    }
}

impl BitOrSpecImpl<BPFMode> for BPFLd {
    open spec fn obeys_bitor_spec() -> bool {
        true
    }

    open spec fn bitor_req(self, rhs: BPFMode) -> bool {
        true
    }

    closed spec fn bitor_spec(self, rhs: BPFMode) -> BPFLd {
        BPFLd(self.0 | rhs.0)
    }
}

impl BitOr<BPFMode> for BPFLd {
    type Output = BPFLd;

    /// Unites the modifier into the opcode.
    fn bitor(self, rhs: BPFMode) -> (r: BPFLd)
        ensures
            r.bits() == self.bits() | rhs.bits(),
            class_of(r.bits()) == class_of(self.bits()),
    {
        proof {
            use_type_invariant(&self);
            use_type_invariant(&rhs);
        }
        let a: u16 = self.0;
        let b: u16 = rhs.0;
        assert((a | b) % 8 == a % 8 && (a | b) < 0x100) by (bit_vector)
            requires
                a % 8 <= 1 && a < 0x100,
                b == 0x00 || b == 0x20 || b == 0x40 || b == 0x60 || b == 0x80 || b == 0xa0,
        ;
        BPFLd(a | b)
    }
}

impl BitOrSpecImpl<BPFOp> for BPFAlu {
    open spec fn obeys_bitor_spec() -> bool {
        true
    }

    open spec fn bitor_req(self, rhs: BPFOp) -> bool {
        true
    }

    closed spec fn bitor_spec(self, rhs: BPFOp) -> BPFAlu {
        BPFAlu(self.0 | rhs.0)
    }
}

impl BitOr<BPFOp> for BPFAlu {
    type Output = BPFAlu;

    /// Unites the modifier into the opcode.
    fn bitor(self, rhs: BPFOp) -> (r: BPFAlu)
        ensures
            r.bits() == self.bits() | rhs.bits(),
            class_of(r.bits()) == class_of(self.bits()),
    {
        proof {
            use_type_invariant(&self);
            use_type_invariant(&rhs);
        }
        let a: u16 = self.0;
        let b: u16 = rhs.0;
        assert((a | b) % 8 == a % 8 && (a | b) < 0x100) by (bit_vector)
            requires
                a % 8 == 4 && a < 0x100,
                b == 0x00
                    || b == 0x10
                    || b == 0x20
                    || b == 0x30
                    || b == 0x40
                    || b == 0x50
                    || b == 0x60
                    || b == 0x70
                    || b == 0x80,
        ;
        BPFAlu(a | b)
    }
}

impl BitOrSpecImpl<BPFSrc> for BPFAlu {
    open spec fn obeys_bitor_spec() -> bool {
        true
    }

    open spec fn bitor_req(self, rhs: BPFSrc) -> bool {
        true
    }

    closed spec fn bitor_spec(self, rhs: BPFSrc) -> BPFAlu {
        BPFAlu(self.0 | rhs.0)
    }
}

impl BitOr<BPFSrc> for BPFAlu {
    type Output = BPFAlu;

    /// Unites the modifier into the opcode.
    fn bitor(self, rhs: BPFSrc) -> (r: BPFAlu)
        ensures
            r.bits() == self.bits() | rhs.bits(),
            class_of(r.bits()) == class_of(self.bits()),
    {
        proof {
            use_type_invariant(&self);
            use_type_invariant(&rhs);
        }
        let a: u16 = self.0;
        let b: u16 = rhs.0;
        assert((a | b) % 8 == a % 8 && (a | b) < 0x100) by (bit_vector)
            requires
                a % 8 == 4 && a < 0x100,
                b == 0x00 || b == 0x08,
        ;
        BPFAlu(a | b)
    }
}

impl BitOrSpecImpl<BPFJmpOp> for BPFJmp {
    open spec fn obeys_bitor_spec() -> bool {
        true
    }

    open spec fn bitor_req(self, rhs: BPFJmpOp) -> bool {
        true
    }

    closed spec fn bitor_spec(self, rhs: BPFJmpOp) -> BPFJmp {
        BPFJmp(self.0 | rhs.0)
    }
}

impl BitOr<BPFJmpOp> for BPFJmp {
    type Output = BPFJmp;

    /// Unites the modifier into the opcode.
    fn bitor(self, rhs: BPFJmpOp) -> (r: BPFJmp)
        ensures
            r.bits() == self.bits() | rhs.bits(),
            class_of(r.bits()) == class_of(self.bits()),
    {
        proof {
            use_type_invariant(&self);
            use_type_invariant(&rhs);
        }
        let a: u16 = self.0;
        let b: u16 = rhs.0;
        assert((a | b) % 8 == a % 8 && (a | b) < 0x80) by (bit_vector)
            requires
                a % 8 == 5 && a < 0x80,
                b == 0x00 || b == 0x10 || b == 0x20 || b == 0x30 || b == 0x40,
        ;
        BPFJmp(a | b)
    }
}

impl BitOrSpecImpl<BPFSrc> for BPFJmp {
    open spec fn obeys_bitor_spec() -> bool {
        true
    }

    open spec fn bitor_req(self, rhs: BPFSrc) -> bool {
        true
    }

    closed spec fn bitor_spec(self, rhs: BPFSrc) -> BPFJmp {
        BPFJmp(self.0 | rhs.0)
    }
}

impl BitOr<BPFSrc> for BPFJmp {
    type Output = BPFJmp;

    /// Unites the modifier into the opcode.
    fn bitor(self, rhs: BPFSrc) -> (r: BPFJmp)
        ensures
            r.bits() == self.bits() | rhs.bits(),
            class_of(r.bits()) == class_of(self.bits()),
    {
        proof {
            use_type_invariant(&self);
            use_type_invariant(&rhs);
        }
        let a: u16 = self.0;
        let b: u16 = rhs.0;
        assert((a | b) % 8 == a % 8 && (a | b) < 0x80) by (bit_vector)
            requires
                a % 8 == 5 && a < 0x80,
                b == 0x00 || b == 0x08,
        ;
        BPFJmp(a | b)
    }
}

impl BitOrSpecImpl<BPFSrc> for BPFRet {
    open spec fn obeys_bitor_spec() -> bool {
        true
    }

    open spec fn bitor_req(self, rhs: BPFSrc) -> bool {
        true
    }

    closed spec fn bitor_spec(self, rhs: BPFSrc) -> BPFRet {
        BPFRet(self.0 | rhs.0)
    }
}

impl BitOr<BPFSrc> for BPFRet {
    type Output = BPFRet;

    /// Unites the modifier into the opcode.
    fn bitor(self, rhs: BPFSrc) -> (r: BPFRet)
        ensures
            r.bits() == self.bits() | rhs.bits(),
            class_of(r.bits()) == class_of(self.bits()),
    {
        proof {
            use_type_invariant(&self);
            use_type_invariant(&rhs);
        }
        let a: u16 = self.0;
        let b: u16 = rhs.0;
        assert(a | b == 0x06 || a | b == 0x0e) by (bit_vector)
            requires
                a == 0x06 || a == 0x0e,
                b == 0x00 || b == 0x08,
        ;
        BPFRet(a | b)
    }
}

impl BitOrSpecImpl<BPFRetSrc> for BPFRet {
    open spec fn obeys_bitor_spec() -> bool {
        true
    }

    open spec fn bitor_req(self, rhs: BPFRetSrc) -> bool {
        true
    }

    closed spec fn bitor_spec(self, rhs: BPFRetSrc) -> BPFRet {
        BPFRet(self.0 | rhs.0)
    }
}

impl BitOr<BPFRetSrc> for BPFRet {
    type Output = BPFRet;

    /// Unites the modifier into the opcode.
    fn bitor(self, rhs: BPFRetSrc) -> (r: BPFRet)
        ensures
            r.bits() == self.bits() | rhs.bits(),
            class_of(r.bits()) == class_of(self.bits()),
    {
        proof {
            use_type_invariant(&self);
            use_type_invariant(&rhs);
        }
        let a: u16 = self.0;
        let b: u16 = rhs.0;
        assert(a | b == 0x06 || a | b == 0x0e) by (bit_vector)
            requires
                a == 0x06 || a == 0x0e,
                b == 0x08,
        ;
        BPFRet(a | b)
    }
}

impl BitOrSpecImpl<BPFMiscOp> for BPFMisc {
    open spec fn obeys_bitor_spec() -> bool {
        true
    }

    open spec fn bitor_req(self, rhs: BPFMiscOp) -> bool {
        true
    }

    closed spec fn bitor_spec(self, rhs: BPFMiscOp) -> BPFMisc {
        BPFMisc(self.0 | rhs.0)
    }
}

impl BitOr<BPFMiscOp> for BPFMisc {
    type Output = BPFMisc;

    /// Unites the modifier into the opcode.
    fn bitor(self, rhs: BPFMiscOp) -> (r: BPFMisc)
        ensures
            r.bits() == self.bits() | rhs.bits(),
            class_of(r.bits()) == class_of(self.bits()),
    {
        proof {
            use_type_invariant(&self);
            use_type_invariant(&rhs);
        }
        let a: u16 = self.0;
        let b: u16 = rhs.0;
        assert(a | b == 0x07 || a | b == 0x87) by (bit_vector)
            requires
                a == 0x07 || a == 0x87,
                b == 0x00 || b == 0x80,
        ;
        BPFMisc(a | b)
    }
}

/// Load into the accumulator.
#[allow(non_snake_case)]
pub fn LD() -> (c: BPFLd)
    ensures
        c.bits() == 0x00,
{
    BPFLd(0x00)
}

/// Load into the index register.
#[allow(non_snake_case)]
pub fn LDX() -> (c: BPFLd)
    ensures
        c.bits() == 0x01,
{
    BPFLd(0x01)
}

/// Store the accumulator into scratch memory.
#[allow(non_snake_case)]
pub fn ST() -> (c: BPFSt)
    ensures
        c.bits() == 0x02,
{
    BPFSt(0x02)
}

/// Store the index register into scratch memory.
#[allow(non_snake_case)]
pub fn STX() -> (c: BPFSt)
    ensures
        c.bits() == 0x03,
{
    BPFSt(0x03)
}

/// Arithmetic or logic on the accumulator.
#[allow(non_snake_case)]
pub fn ALU() -> (c: BPFAlu)
    ensures
        c.bits() == 0x04,
{
    BPFAlu(0x04)
}

/// Jump.
#[allow(non_snake_case)]
pub fn JMP() -> (c: BPFJmp)
    ensures
        c.bits() == 0x05,
{
    BPFJmp(0x05)
}

/// Return from the program.
#[allow(non_snake_case)]
pub fn RET() -> (c: BPFRet)
    ensures
        c.bits() == 0x06,
{
    BPFRet(0x06)
}

/// Register transfer.
#[allow(non_snake_case)]
pub fn MISC() -> (c: BPFMisc)
    ensures
        c.bits() == 0x07,
{
    BPFMisc(0x07)
}

/// Word: four bytes.
#[allow(non_snake_case)]
pub fn W() -> (c: BPFSize)
    ensures
        c.bits() == 0x00,
{
    BPFSize(0x00)
}

/// Half word: two bytes.
#[allow(non_snake_case)]
pub fn H() -> (c: BPFSize)
    ensures
        c.bits() == 0x08,
{
    BPFSize(0x08)
}

/// One byte.
#[allow(non_snake_case)]
pub fn B() -> (c: BPFSize)
    ensures
        c.bits() == 0x10,
{
    BPFSize(0x10)
}

/// The operand is the immediate itself.
#[allow(non_snake_case)]
pub fn IMM() -> (c: BPFMode)
    ensures
        c.bits() == 0x00,
{
    BPFMode(0x00)
}

/// The operand lies in the packet at the immediate as a fixed offset.
#[allow(non_snake_case)]
pub fn ABS() -> (c: BPFMode)
    ensures
        c.bits() == 0x20,
{
    BPFMode(0x20)
}

/// The operand lies in the packet at the index register plus the immediate.
#[allow(non_snake_case)]
pub fn IND() -> (c: BPFMode)
    ensures
        c.bits() == 0x40,
{
    BPFMode(0x40)
}

/// The operand lies in scratch memory.
#[allow(non_snake_case)]
pub fn MEM() -> (c: BPFMode)
    ensures
        c.bits() == 0x60,
{
    BPFMode(0x60)
}

/// The operand is the length of the packet.
#[allow(non_snake_case)]
pub fn LEN() -> (c: BPFMode)
    ensures
        c.bits() == 0x80,
{
    BPFMode(0x80)
}

/// The operand is four times the low nibble of a packet byte.
#[allow(non_snake_case)]
pub fn MSH() -> (c: BPFMode)
    ensures
        c.bits() == 0xa0,
{
    BPFMode(0xa0)
}

/// Addition.
#[allow(non_snake_case)]
pub fn ADD() -> (c: BPFOp)
    ensures
        c.bits() == 0x00,
{
    BPFOp(0x00)
}

/// Subtraction.
#[allow(non_snake_case)]
pub fn SUB() -> (c: BPFOp)
    ensures
        c.bits() == 0x10,
{
    BPFOp(0x10)
}

/// Multiplication.
#[allow(non_snake_case)]
pub fn MUL() -> (c: BPFOp)
    ensures
        c.bits() == 0x20,
{
    BPFOp(0x20)
}

/// Division.
#[allow(non_snake_case)]
pub fn DIV() -> (c: BPFOp)
    ensures
        c.bits() == 0x30,
{
    BPFOp(0x30)
}

/// Bitwise or.
#[allow(non_snake_case)]
pub fn OR() -> (c: BPFOp)
    ensures
        c.bits() == 0x40,
{
    BPFOp(0x40)
}

/// Bitwise and.
#[allow(non_snake_case)]
pub fn AND() -> (c: BPFOp)
    ensures
        c.bits() == 0x50,
{
    BPFOp(0x50)
}

/// Shift to the left.
#[allow(non_snake_case)]
pub fn LSH() -> (c: BPFOp)
    ensures
        c.bits() == 0x60,
{
    BPFOp(0x60)
}

/// Shift to the right.
#[allow(non_snake_case)]
pub fn RSH() -> (c: BPFOp)
    ensures
        c.bits() == 0x70,
{
    BPFOp(0x70)
}

/// Negation.
#[allow(non_snake_case)]
pub fn NEG() -> (c: BPFOp)
    ensures
        c.bits() == 0x80,
{
    BPFOp(0x80)
}

/// Jump always.
#[allow(non_snake_case)]
pub fn JA() -> (c: BPFJmpOp)
    ensures
        c.bits() == 0x00,
{
    BPFJmpOp(0x00)
}

/// Jump if equal.
#[allow(non_snake_case)]
pub fn JEQ() -> (c: BPFJmpOp)
    ensures
        c.bits() == 0x10,
{
    BPFJmpOp(0x10)
}

/// Jump if greater.
#[allow(non_snake_case)]
pub fn JGT() -> (c: BPFJmpOp)
    ensures
        c.bits() == 0x20,
{
    BPFJmpOp(0x20)
}

/// Jump if greater or equal.
#[allow(non_snake_case)]
pub fn JGE() -> (c: BPFJmpOp)
    ensures
        c.bits() == 0x30,
{
    BPFJmpOp(0x30)
}

/// Jump if any of the tested bits is set.
#[allow(non_snake_case)]
pub fn JSET() -> (c: BPFJmpOp)
    ensures
        c.bits() == 0x40,
{
    BPFJmpOp(0x40)
}

/// The operand is the immediate.
#[allow(non_snake_case)]
pub fn K() -> (c: BPFSrc)
    ensures
        c.bits() == 0x00,
{
    BPFSrc(0x00)
}

/// The operand is the index register.
#[allow(non_snake_case)]
pub fn X() -> (c: BPFSrc)
    ensures
        c.bits() == 0x08,
{
    BPFSrc(0x08)
}

/// The value returned is the accumulator.
#[allow(non_snake_case)]
pub fn A() -> (c: BPFRetSrc)
    ensures
        c.bits() == 0x08,
{
    BPFRetSrc(0x08)
}

/// Copy the accumulator into the index register.
#[allow(non_snake_case)]
pub fn TAX() -> (c: BPFMiscOp)
    ensures
        c.bits() == 0x00,
{
    BPFMiscOp(0x00)
}

/// Copy the index register into the accumulator.
#[allow(non_snake_case)]
pub fn TXA() -> (c: BPFMiscOp)
    ensures
        c.bits() == 0x80,
{
    BPFMiscOp(0x80)
}

} // verus!
