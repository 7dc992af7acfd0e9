use vstd::prelude::*;

use vstd::bits::lemma_low_bits_mask_values;

use crate::mask;
use crate::VmError;

verus! {

/// The eleven operations of the registry, one variant per opcode; the
/// registry is a closed enumeration with no other entries.
#[derive(Clone, Copy, Debug, PartialEq, Eq, Structural)]
pub enum InstrType {
    Add,
    Sub,
    Store,
    Clear,
    Or,
    And,
    Shiftr,
    Shiftl,
    Bge,
    Blt,
    End,
}

/// The 5-bit opcode value an operation occupies in the registry.
pub open spec fn opcode_of(t: InstrType) -> u16 {
    match t {
        InstrType::Or => 0,
        InstrType::Add => 1,
        InstrType::Store => 2,
        InstrType::Clear => 3,
        InstrType::And => 4,
        InstrType::Shiftr => 5,
        InstrType::Shiftl => 6,
        InstrType::Bge => 7,
        InstrType::Blt => 8,
        InstrType::End => 10,
        InstrType::Sub => 16,
    }
}

/// The registry lookup: the operation bound to a 5-bit opcode value, or
/// `None` for a value with no entry.
pub open spec fn type_of_opcode(op: u16) -> Option<InstrType> {
    if op == 0 {
        Some(InstrType::Or)
    } else if op == 1 {
        Some(InstrType::Add)
    } else if op == 2 {
        Some(InstrType::Store)
    } else if op == 3 {
        Some(InstrType::Clear)
    } else if op == 4 {
        Some(InstrType::And)
    } else if op == 5 {
        Some(InstrType::Shiftr)
    } else if op == 6 {
        Some(InstrType::Shiftl)
    } else if op == 7 {
        Some(InstrType::Bge)
    } else if op == 8 {
        Some(InstrType::Blt)
    } else if op == 10 {
        Some(InstrType::End)
    } else if op == 16 {
        Some(InstrType::Sub)
    } else {
        None
    }
}

/// The mnemonic of an operation.
pub open spec fn spec_name(t: InstrType) -> Seq<char> {
    match t {
        InstrType::Or => "OR"@,
        InstrType::Add => "ADD"@,
        InstrType::Store => "STORE"@,
        InstrType::Clear => "CLEAR"@,
        InstrType::And => "AND"@,
        InstrType::Shiftr => "SHIFTR"@,
        InstrType::Shiftl => "SHIFTL"@,
        InstrType::Bge => "BGE"@,
        InstrType::Blt => "BLT"@,
        InstrType::End => "END"@,
        InstrType::Sub => "SUB"@,
    }
}

/// Packs an opcode and an operand into an instruction word: the opcode
/// masked to 5 bits in the high bits, the operand masked to 11 bits below.
pub open spec fn spec_encode(op: u16, n: u16) -> u16 {
    (((op % 32) * 2048) + (n % 2048)) as u16
}

/// The 5-bit opcode field of a word.
pub open spec fn w_opcode(w: u16) -> u16 {
    (w / 2048) as u16
}

/// The 11-bit operand field of a word.
pub open spec fn w_operand(w: u16) -> u16 {
    (w % 2048) as u16
}

impl InstrType {
    /// The opcode value this operation occupies in the registry.
    pub fn opcode(&self) -> (r: u16)
        ensures
            r == opcode_of(*self),
    {
        match self {
            InstrType::Or => 0,
            InstrType::Add => 1,
            InstrType::Store => 2,
            InstrType::Clear => 3,
            InstrType::And => 4,
            InstrType::Shiftr => 5,
            InstrType::Shiftl => 6,
            InstrType::Bge => 7,
            InstrType::Blt => 8,
            InstrType::End => 10,
            InstrType::Sub => 16,
        }
    }

    /// The display mnemonic.
    pub fn name(&self) -> (r: &'static str)
        ensures
            r@ == spec_name(*self),
    {
        match self {
            InstrType::Or => "OR",
            InstrType::Add => "ADD",
            InstrType::Store => "STORE",
            InstrType::Clear => "CLEAR",
            InstrType::And => "AND",
            InstrType::Shiftr => "SHIFTR",
            InstrType::Shiftl => "SHIFTL",
            InstrType::Bge => "BGE",
            InstrType::Blt => "BLT",
            InstrType::End => "END",
            InstrType::Sub => "SUB",
        }
    }

    /// Assembles an instruction word of this operation with operand `n`.
    pub fn new(&self, n: u16) -> (r: Instruction)
        ensures
            r.w == spec_encode(opcode_of(*self), n),
    {
        Instruction::new(self.opcode(), n)
    }
}

/// An instruction word: a read view over a 16-bit cell as a 5-bit opcode
/// in the high bits and an 11-bit operand below.
#[derive(Clone, Copy, Debug, PartialEq, Eq, Structural)]
pub struct Instruction {
    pub w: u16,
}

impl Instruction {
    /// Packs `op` and `n` into a word, silently truncating each to its
    /// field width.
    pub fn new(op: u16, n: u16) -> (r: Instruction)
        ensures
            r.w == spec_encode(op, n),
    {
        let m = mask(11);
        proof {
            lemma_low_bits_mask_values();
            assert((((op & 0x1F) << 11) | (n & 0x7FF)) == ((op % 32) * 2048) + (n % 2048))
                by (bit_vector);
        }
        Instruction { w: ((op & 0x1F) << 11) | (n & m) }
    }

    /// Reads the word at `pc` as an instruction.
    pub fn load(pc: u16, mem: &Vec<u16>) -> (r: Instruction)
        requires
            (pc as int) < mem@.len(),
        ensures
            r.w == mem@[pc as int],
    {
        Instruction { w: mem[pc as usize] }
    }

    /// Resolves this word's opcode against the registry; an opcode value
    /// with no entry fails with `UnknownOpcode` carrying that value.
    pub fn get_type(&self) -> (r: Result<InstrType, VmError>)
        ensures
            r == (match type_of_opcode(w_opcode(self.w)) {
                Some(t) => Ok::<InstrType, VmError>(t),
                None => Err::<InstrType, VmError>(VmError::UnknownOpcode(w_opcode(self.w))),
            }),
    {
        let op = self.op();
        if op == 0 {
            Ok(InstrType::Or)
        } else if op == 1 {
            Ok(InstrType::Add)
        } else if op == 2 {
            Ok(InstrType::Store)
        } else if op == 3 {
            Ok(InstrType::Clear)
        } else if op == 4 {
            Ok(InstrType::And)
        } else if op == 5 {
            Ok(InstrType::Shiftr)
        } else if op == 6 {
            Ok(InstrType::Shiftl)
        } else if op == 7 {
            Ok(InstrType::Bge)
        } else if op == 8 {
            Ok(InstrType::Blt)
        } else if op == 10 {
            Ok(InstrType::End)
        } else if op == 16 {
            Ok(InstrType::Sub)
        } else {
            Err(VmError::UnknownOpcode(op))
        }
    }

    /// The 11-bit operand field.
    pub fn n(&self) -> (r: u16)
        ensures
            r == w_operand(self.w),
    {
        let w = self.w;
        let m = mask(11);
        proof {
            lemma_low_bits_mask_values();
            assert(w & 0x7FF == w % 2048) by (bit_vector);
        }
        w & m
    }

    /// The 5-bit opcode field.
    pub fn op(&self) -> (r: u16)
        ensures
            r == w_opcode(self.w),
    {
        let w = self.w;
        proof {
            assert(w >> 11 == w / 2048) by (bit_vector);
        }
        w >> 11
    }
}

/// Encoding any 5-bit opcode with any 11-bit operand and decoding the two
/// fields back returns each unchanged.
pub proof fn lemma_encode_decode(op: u16, n: u16)
    requires
        op < 32,
        n < 2048,
    ensures
        w_opcode(spec_encode(op, n)) == op,
        w_operand(spec_encode(op, n)) == n,
{
    assert((op * 2048 + n) / 2048 == op) by (nonlinear_arith)
        requires
            op < 32,
            n < 2048,
    ;
    assert((op * 2048 + n) % 2048 == n) by (nonlinear_arith)
        requires
            op < 32,
            n < 2048,
    ;
}

/// Every registry entry's own opcode value resolves back to that entry.
pub proof fn lemma_registry_consistent(t: InstrType)
    ensures
        type_of_opcode(opcode_of(t)) == Some(t),
{
}

} // verus!
