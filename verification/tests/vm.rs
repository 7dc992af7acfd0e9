use minivm::instr::{InstrType, Instruction};
use minivm::integer::Integer;
use minivm::machine::{run, Regs, TraceEntry};
use minivm::VmError;

fn int_value(i: Integer) -> i32 {
    if i.is_positive() {
        i.abs() as i32
    } else {
        -(i.abs() as i32)
    }
}

#[test]
fn mask_values() {
    assert_eq!(minivm::mask(0), 0);
    assert_eq!(minivm::mask(11), 0x7FF);
    assert_eq!(minivm::mask(15), 0x7FFF);
}

#[test]
fn encode_decode_round_trip() {
    for op in 0u16..32 {
        for n in (0u16..2048).step_by(7) {
            let i = Instruction::new(op, n);
            assert_eq!(i.op(), op);
            assert_eq!(i.n(), n);
        }
        let i = Instruction::new(op, 2047);
        assert_eq!(i.op(), op);
        assert_eq!(i.n(), 2047);
    }
}

#[test]
fn encode_truncates_fields() {
    let i = Instruction::new(33, 2049);
    assert_eq!(i.op(), 1);
    assert_eq!(i.n(), 1);
}

#[test]
fn builders_pack_expected_words() {
    assert_eq!(minivm::add(4), (1 << 11) | 4);
    assert_eq!(minivm::sub(7), (16 << 11) | 7);
    assert_eq!(minivm::store(5), (2 << 11) | 5);
    assert_eq!(minivm::clear(), 3 << 11);
    assert_eq!(minivm::or(9), 9);
    assert_eq!(minivm::and(3), (4 << 11) | 3);
    assert_eq!(minivm::end(), 10 << 11);
    assert_eq!(minivm::con(20), 20);
    assert_eq!(minivm::con(-30), 0x8000 | 30);
}

#[test]
fn opcode_names() {
    assert_eq!(InstrType::Add.name(), "ADD");
    assert_eq!(InstrType::Sub.name(), "SUB");
    assert_eq!(InstrType::Store.name(), "STORE");
    assert_eq!(InstrType::Clear.name(), "CLEAR");
    assert_eq!(InstrType::Or.name(), "OR");
    assert_eq!(InstrType::And.name(), "AND");
    assert_eq!(InstrType::Shiftr.name(), "SHIFTR");
    assert_eq!(InstrType::Shiftl.name(), "SHIFTL");
    assert_eq!(InstrType::Bge.name(), "BGE");
    assert_eq!(InstrType::Blt.name(), "BLT");
    assert_eq!(InstrType::End.name(), "END");
}

#[test]
fn registry_round_trip() {
    let all = [
        InstrType::Add,
        InstrType::Sub,
        InstrType::Store,
        InstrType::Clear,
        InstrType::Or,
        InstrType::And,
        InstrType::Shiftr,
        InstrType::Shiftl,
        InstrType::Bge,
        InstrType::Blt,
        InstrType::End,
    ];
    for t in all {
        let i = t.new(0);
        assert_eq!(i.get_type(), Ok(t));
    }
}

#[test]
fn unknown_opcode_fails_decode() {
    // 0b01001 has no registry entry.
    let i = Instruction::new(0b01001, 0);
    assert_eq!(i.get_type(), Err(VmError::UnknownOpcode(9)));
    let j = Instruction::new(31, 123);
    assert_eq!(j.get_type(), Err(VmError::UnknownOpcode(31)));
}

#[test]
fn integer_round_trip() {
    for x in -32767i32..=32767 {
        let i = Integer::new(x as i16);
        assert_eq!(int_value(i), x);
        assert_eq!(!i.is_positive(), x < 0);
    }
    // Zero always constructs as the non-negative representation.
    let z = Integer::new(0);
    assert!(z.is_positive());
    assert_eq!(z.w, 0);
}

#[test]
fn integer_accessors() {
    let n = Integer::new(-30);
    assert_eq!(n.w, 0x8000 | 30);
    assert_eq!(n.abs(), 30);
    assert_eq!(n.sign(), 0x8000);
    assert!(!n.is_positive());
    assert!(n.less_than_zero());
    let p = Integer::new(30);
    assert_eq!(p.w, 30);
    assert_eq!(p.sign(), 0);
    assert!(p.is_positive());
    assert!(!p.less_than_zero());
    // A "negative zero" word is never negative for comparison purposes.
    let nz = Integer { w: 0x8000 };
    assert!(!nz.is_positive());
    assert!(!nz.less_than_zero());
}

#[test]
fn add_same_sign_matches_native() {
    let r = Integer::new(20).add(Integer::new(30)).unwrap();
    assert_eq!(int_value(r), 50);
    let r = Integer::new(-20).add(Integer::new(-30)).unwrap();
    assert_eq!(int_value(r), -50);
    let r = Integer::new(16000).add(Integer::new(16767)).unwrap();
    assert_eq!(int_value(r), 32767);
}

#[test]
fn add_overflow_fails() {
    assert_eq!(
        Integer::new(20000).add(Integer::new(20000)),
        Err(VmError::ArithmeticOverflow)
    );
    assert_eq!(
        Integer::new(-16000).add(Integer::new(-16768)),
        Err(VmError::ArithmeticOverflow)
    );
}

#[test]
fn add_mixed_signs_subtracts() {
    let r = Integer::new(20).add(Integer::new(-30)).unwrap();
    assert_eq!(int_value(r), -10);
    let r = Integer::new(-20).add(Integer::new(30)).unwrap();
    assert_eq!(int_value(r), 10);
    // Equal magnitudes of opposite signs leave a non-negative zero.
    let r = Integer::new(5).add(Integer::new(-5)).unwrap();
    assert_eq!(r.w, 0);
    assert!(r.is_positive());
}

#[test]
fn sub_self_is_zero_magnitude() {
    for x in [-32767, -10, -1, 0, 1, 10, 32767] {
        let a = Integer::new(x);
        let r = a.sub(a).unwrap();
        assert_eq!(r.abs(), 0);
    }
    // Also for a "negative zero" operand.
    let nz = Integer { w: 0x8000 };
    assert_eq!(nz.sub(nz).unwrap().abs(), 0);
}

#[test]
fn sub_keeps_negative_zero_quirk() {
    // -0 minus +0 flips the subtrahend's sign bit without normalizing,
    // leaving the "negative zero" bit pattern untouched.
    let nz = Integer { w: 0x8000 };
    let r = nz.sub(Integer { w: 0 }).unwrap();
    assert_eq!(r.w, 0x8000);
    assert!(!r.less_than_zero());
}

#[test]
fn sub_is_add_of_flipped() {
    let r = Integer::new(20).sub(Integer::new(30)).unwrap();
    assert_eq!(int_value(r), -10);
    let r = Integer::new(-20).sub(Integer::new(-30)).unwrap();
    assert_eq!(int_value(r), 10);
    let r = Integer::new(-20).sub(Integer::new(30)).unwrap();
    assert_eq!(int_value(r), -50);
}

#[test]
fn bitwise_use_full_word() {
    let a = Integer { w: 0x8001 };
    let b = Integer { w: 0x4001 };
    assert_eq!(a.bitor(b).w, 0xC001);
    assert_eq!(a.bitand(b).w, 0x0001);
}

#[test]
fn shift_right_magnitude_only() {
    let r = Integer::new(-20).shr(2);
    assert_eq!(int_value(r), -5);
    let r = Integer::new(20).shr(2);
    assert_eq!(int_value(r), 5);
    // The sign bit survives even when the magnitude is shifted to nothing.
    let r = Integer::new(-20).shr(14);
    assert_eq!(r.w, 0x8000);
    // A count of 15 or more clears the magnitude.
    assert_eq!(Integer::new(32767).shr(15).w, 0);
    assert_eq!(Integer::new(32767).shr(2000).w, 0);
}

#[test]
fn shift_left_magnitude_only() {
    let r = Integer::new(3).shl(2);
    assert_eq!(int_value(r), 12);
    let r = Integer::new(-3).shl(1);
    assert_eq!(int_value(r), -6);
    // Bits shifted past the 15-bit magnitude are discarded; the sign bit
    // is reapplied unchanged.
    let r = Integer::new(16384).shl(1);
    assert_eq!(r.w, 0);
    let r = Integer::new(-16385).shl(1);
    assert_eq!(r.w, 0x8000 | 2);
    assert_eq!(Integer::new(5).shl(15).w, 0);
    assert_eq!(Integer::new(5).shl(2000).w, 0);
}

#[test]
fn regs_start_fresh() {
    let r = Regs::new(7);
    assert_eq!(r.pc, 7);
    assert_eq!(r.acc.w, 0);
}

#[test]
fn exec_bge_branches_on_non_negative() {
    let bge = InstrType::Bge.new(6);
    let mut mem = vec![0u16; 8];
    // Non-negative accumulator: pc moves to the operand.
    let r = bge
        .exec(Regs { acc: Integer::new(0), pc: 2 }, &mut mem)
        .unwrap();
    assert_eq!(r.pc, 6);
    assert_eq!(r.acc.w, 0);
    // Negative accumulator: pc advances by one.
    let r = bge
        .exec(Regs { acc: Integer::new(-1), pc: 2 }, &mut mem)
        .unwrap();
    assert_eq!(r.pc, 3);
    assert_eq!(int_value(r.acc), -1);
    // A "negative zero" accumulator counts as non-negative.
    let r = bge
        .exec(Regs { acc: Integer { w: 0x8000 }, pc: 2 }, &mut mem)
        .unwrap();
    assert_eq!(r.pc, 6);
    assert_eq!(r.acc.w, 0x8000);
}

#[test]
fn exec_blt_branches_on_negative() {
    let blt = InstrType::Blt.new(6);
    let mut mem = vec![0u16; 8];
    let r = blt
        .exec(Regs { acc: Integer::new(-1), pc: 2 }, &mut mem)
        .unwrap();
    assert_eq!(r.pc, 6);
    assert_eq!(int_value(r.acc), -1);
    let r = blt
        .exec(Regs { acc: Integer::new(0), pc: 2 }, &mut mem)
        .unwrap();
    assert_eq!(r.pc, 3);
    assert_eq!(r.acc.w, 0);
}

#[test]
fn exec_store_writes_raw_bits_only_there() {
    let mut mem = vec![11u16, 22, 33, 44];
    let acc = Integer::new(-10);
    let r = InstrType::Store
        .new(2)
        .exec(Regs { acc, pc: 0 }, &mut mem)
        .unwrap();
    assert_eq!(mem, vec![11, 22, 0x8000 | 10, 44]);
    assert_eq!(r.acc.w, acc.w);
    assert_eq!(r.pc, 1);
}

#[test]
fn exec_address_out_of_range() {
    let mut mem = vec![0u16, 0];
    let r = InstrType::Add
        .new(100)
        .exec(Regs { acc: Integer::new(0), pc: 0 }, &mut mem);
    assert_eq!(r, Err(VmError::AddressOutOfRange(100)));
    assert_eq!(mem, vec![0, 0]);
}

#[test]
fn run_add_add_clear_traces() {
    let mut mem = vec![
        minivm::add(4),
        minivm::add(5),
        minivm::clear(),
        minivm::end(),
        minivm::con(20),
        minivm::con(-30),
    ];
    let (regs, trace) = run(0, &mut mem, 1000).unwrap();
    assert_eq!(regs.pc, 3);
    assert_eq!(regs.acc.w, 0);
    assert_eq!(trace.len(), 4);
    assert_eq!(
        trace[0],
        TraceEntry {
            pc: 0,
            op: InstrType::Add,
            n: 4,
            acc_before: Integer { w: 0 },
            acc_after: Integer { w: 20 },
        }
    );
    assert_eq!(
        trace[1],
        TraceEntry {
            pc: 1,
            op: InstrType::Add,
            n: 5,
            acc_before: Integer { w: 20 },
            acc_after: Integer { w: 0x8000 | 10 },
        }
    );
    assert_eq!(
        trace[2],
        TraceEntry {
            pc: 2,
            op: InstrType::Clear,
            n: 0,
            acc_before: Integer { w: 0x8000 | 10 },
            acc_after: Integer { w: 0 },
        }
    );
    assert_eq!(
        trace[3],
        TraceEntry {
            pc: 3,
            op: InstrType::End,
            n: 0,
            acc_before: Integer { w: 0 },
            acc_after: Integer { w: 0 },
        }
    );
}

#[test]
fn run_stores_result_in_memory() {
    let mut mem = vec![
        minivm::clear(),
        minivm::add(5),
        minivm::add(6),
        minivm::store(5),
        minivm::end(),
        minivm::con(20),
        minivm::con(-30),
    ];
    let (regs, _trace) = run(0, &mut mem, 1000).unwrap();
    assert_eq!(mem[5], 0x8000 | 10);
    assert_eq!(int_value(regs.acc), -10);
    assert_eq!(regs.pc, 4);
}

#[test]
fn run_reports_unknown_opcode() {
    let mut mem = vec![Instruction::new(9, 0).w];
    assert_eq!(run(0, &mut mem, 10), Err(VmError::UnknownOpcode(9)));
}

#[test]
fn run_reports_overflow() {
    let mut mem = vec![
        minivm::add(3),
        minivm::add(3),
        minivm::end(),
        minivm::con(20000),
    ];
    assert_eq!(run(0, &mut mem, 10), Err(VmError::ArithmeticOverflow));
}

#[test]
fn run_reports_bad_fetch_address() {
    // A branch target outside memory fails at the next fetch.
    let mut mem = vec![InstrType::Bge.new(5).w];
    assert_eq!(run(0, &mut mem, 10), Err(VmError::AddressOutOfRange(5)));
    // So does a start address outside memory.
    let mut mem = vec![minivm::end()];
    assert_eq!(run(9, &mut mem, 10), Err(VmError::AddressOutOfRange(9)));
}

#[test]
fn run_stops_at_step_ceiling() {
    // BGE 0 with a zero accumulator loops forever.
    let mut mem = vec![InstrType::Bge.new(0).w];
    assert_eq!(run(0, &mut mem, 100), Err(VmError::StepLimitExceeded));
}

#[test]
fn run_shift_program() {
    let mut mem = vec![
        minivm::add(4),
        InstrType::Shiftl.new(3).w,
        InstrType::Shiftr.new(1).w,
        minivm::end(),
        minivm::con(-5),
    ];
    let (regs, _trace) = run(0, &mut mem, 100).unwrap();
    assert_eq!(int_value(regs.acc), -20);
    assert_eq!(regs.pc, 3);
}
