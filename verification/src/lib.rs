use vstd::prelude::*;

pub mod instr;
pub mod integer;
pub mod machine;

use vstd::arithmetic::power2::{pow2, lemma_pow2_strictly_increases, lemma2_to64};
use vstd::bits::{low_bits_mask, lemma_u32_shl_is_mul};

use crate::instr::{opcode_of, spec_encode, InstrType};
use crate::integer::{spec_new, Integer};

verus! {

/// Number of 16-bit cells a memory image may hold: the 11-bit operand
/// field addresses exactly this range.
pub const MAX_MEM: usize = 2048;

/// A fatal condition: a run stops at the instruction that raised it.
#[derive(Clone, Copy, Debug, PartialEq, Eq, Structural)]
pub enum VmError {
    /// The 5-bit opcode of a fetched word has no registry entry; carries
    /// that opcode value.
    UnknownOpcode(u16),
    /// An addition's result magnitude would exceed 15 bits.
    ArithmeticOverflow,
    /// An operand or program counter addresses a cell outside memory;
    /// carries the offending address.
    AddressOutOfRange(u16),
    /// The run did not reach END within the caller's step ceiling.
    StepLimitExceeded,
}

/// A word with exactly the low `bits` bits set.
pub fn mask(bits: u32) -> (r: u16)
    requires
        bits <= 15,
    ensures
        r as nat == low_bits_mask(bits as nat),
{
    proof {
        lemma2_to64();
        if bits < 15 {
            lemma_pow2_strictly_increases(bits as nat, 15);
        }
        assert(1u32 * pow2(bits as nat) == pow2(bits as nat));
        lemma_u32_shl_is_mul(1u32, bits);
    }
    ((1u32 << bits) - 1) as u16
}

/// Assembles an ADD instruction word with operand `n`.
pub fn add(n: u16) -> (w: u16)
    ensures
        w == spec_encode(opcode_of(InstrType::Add), n),
{
    InstrType::Add.new(n).w
}

/// Assembles a SUB instruction word with operand `n`.
pub fn sub(n: u16) -> (w: u16)
    ensures
        w == spec_encode(opcode_of(InstrType::Sub), n),
{
    InstrType::Sub.new(n).w
}

/// Assembles a STORE instruction word with operand `n`.
pub fn store(n: u16) -> (w: u16)
    ensures
        w == spec_encode(opcode_of(InstrType::Store), n),
{
    InstrType::Store.new(n).w
}

/// Assembles a CLEAR instruction word; the operand is unused.
pub fn clear() -> (w: u16)
    ensures
        w == spec_encode(opcode_of(InstrType::Clear), 0),
{
    InstrType::Clear.new(0).w
}

/// Assembles an OR instruction word with operand `n`.
pub fn or(n: u16) -> (w: u16)
    ensures
        w == spec_encode(opcode_of(InstrType::Or), n),
{
    InstrType::Or.new(n).w
}

/// Assembles an AND instruction word with operand `n`.
pub fn and(n: u16) -> (w: u16)
    ensures
        w == spec_encode(opcode_of(InstrType::And), n),
{
    InstrType::And.new(n).w
}

/// Assembles an END instruction word; the operand is unused.
pub fn end() -> (w: u16)
    ensures
        w == spec_encode(opcode_of(InstrType::End), 0),
{
    InstrType::End.new(0).w
}

/// Assembles a literal data word: the sign-magnitude encoding of `n`.
pub fn con(n: i16) -> (w: u16)
    requires
        n != i16::MIN,
    ensures
        w == spec_new(n).w,
{
    Integer::new(n).w
}

} // verus!
