use vstd::prelude::*;

use crate::instr::{type_of_opcode, w_opcode, w_operand, InstrType, Instruction};
use crate::integer::{spec_add, spec_and, spec_or, spec_shl, spec_shr, spec_sub, Integer};
use crate::VmError;
use crate::MAX_MEM;

verus! {

/// The machine's registers: the accumulator and the program counter.
#[derive(Clone, Copy, Debug, PartialEq, Eq, Structural)]
pub struct Regs {
    pub acc: Integer,
    pub pc: u16,
}

impl Regs {
    /// Fresh registers at run start: accumulator zero, program counter at
    /// the given start address.
    pub fn new(pc: u16) -> (r: Regs)
        ensures
            r.acc.w == 0,
            r.pc == pc,
    {
        Regs { acc: Integer::new(0), pc }
    }
}

/// One record of the per-step trace: where the step ran, what it decoded,
/// and the accumulator before and after.
#[derive(Clone, Copy, Debug, PartialEq, Eq, Structural)]
pub struct TraceEntry {
    pub pc: u16,
    pub op: InstrType,
    pub n: u16,
    pub acc_before: Integer,
    pub acc_after: Integer,
}

/// The whole machine at one point of a run, as specification state.
#[verifier::ext_equal]
pub struct MachineState {
    pub regs: Regs,
    pub mem: Seq<u16>,
    pub halted: bool,
}

/// What applying operation `t` with operand `n` does to the registers and
/// memory. Address operands outside memory fail with `AddressOutOfRange`;
/// STORE is the only operation that writes memory; branch targets are not
/// checked here but at the next fetch.
pub open spec fn spec_apply(t: InstrType, n: u16, regs: Regs, mem: Seq<u16>) -> Result<
    (Regs, Seq<u16>),
    VmError,
>
    recommends
        regs.pc < u16::MAX,
{
    let pc1 = (regs.pc + 1) as u16;
    match t {
        InstrType::Add => if n as int >= mem.len() {
            Err(VmError::AddressOutOfRange(n))
        } else {
            match spec_add(regs.acc, Integer { w: mem[n as int] }) {
                Ok(acc) => Ok((Regs { acc, pc: pc1 }, mem)),
                Err(e) => Err(e),
            }
        },
        InstrType::Sub => if n as int >= mem.len() {
            Err(VmError::AddressOutOfRange(n))
        } else {
            match spec_sub(regs.acc, Integer { w: mem[n as int] }) {
                Ok(acc) => Ok((Regs { acc, pc: pc1 }, mem)),
                Err(e) => Err(e),
            }
        },
        InstrType::Store => if n as int >= mem.len() {
            Err(VmError::AddressOutOfRange(n))
        } else {
            Ok((Regs { acc: regs.acc, pc: pc1 }, mem.update(n as int, regs.acc.w)))
        },
        InstrType::Clear => Ok((Regs { acc: Integer { w: 0 }, pc: pc1 }, mem)),
        InstrType::Or => if n as int >= mem.len() {
            Err(VmError::AddressOutOfRange(n))
        } else {
            Ok((Regs { acc: spec_or(regs.acc, Integer { w: mem[n as int] }), pc: pc1 }, mem))
        },
        InstrType::And => if n as int >= mem.len() {
            Err(VmError::AddressOutOfRange(n))
        } else {
            Ok((Regs { acc: spec_and(regs.acc, Integer { w: mem[n as int] }), pc: pc1 }, mem))
        },
        InstrType::Shiftr => Ok((Regs { acc: spec_shr(regs.acc, n), pc: pc1 }, mem)),
        InstrType::Shiftl => Ok((Regs { acc: spec_shl(regs.acc, n), pc: pc1 }, mem)),
        InstrType::Bge => Ok(
            (Regs { acc: regs.acc, pc: if regs.acc.val() >= 0 { n } else { pc1 } }, mem),
        ),
        InstrType::Blt => Ok(
            (Regs { acc: regs.acc, pc: if regs.acc.val() < 0 { n } else { pc1 } }, mem),
        ),
        InstrType::End => Ok((regs, mem)),
    }
}

/// One step of the machine: fetch the word at the program counter, decode
/// it against the registry, apply it; decoding END halts. A halted machine
/// is left as it stands.
pub open spec fn spec_step(s: MachineState) -> Result<MachineState, VmError> {
    if s.halted {
        Ok(s)
    } else if s.regs.pc as int >= s.mem.len() {
        Err(VmError::AddressOutOfRange(s.regs.pc))
    } else {
        let w = s.mem[s.regs.pc as int];
        match type_of_opcode(w_opcode(w)) {
            None => Err(VmError::UnknownOpcode(w_opcode(w))),
            Some(t) => match spec_apply(t, w_operand(w), s.regs, s.mem) {
                Err(e) => Err(e),
                Ok(rm) => Ok(
                    MachineState { regs: rm.0, mem: rm.1, halted: t == InstrType::End },
                ),
            },
        }
    }
}

/// `n` steps from `s`; an error and the halted state both absorb all
/// later steps.
pub open spec fn spec_steps(n: nat, s: MachineState) -> Result<MachineState, VmError>
    decreases n,
{
    if n == 0 {
        Ok(s)
    } else {
        match spec_step(s) {
            Err(e) => Err(e),
            Ok(s2) => spec_steps((n - 1) as nat, s2),
        }
    }
}

/// The trace record of the step taken from `pre`, which ended in `post`.
pub open spec fn spec_entry(pre: MachineState, post: MachineState) -> TraceEntry
    recommends
        (pre.regs.pc as int) < pre.mem.len(),
        type_of_opcode(w_opcode(pre.mem[pre.regs.pc as int])) is Some,
{
    let w = pre.mem[pre.regs.pc as int];
    TraceEntry {
        pc: pre.regs.pc,
        op: type_of_opcode(w_opcode(w))->Some_0,
        n: w_operand(w),
        acc_before: pre.regs.acc,
        acc_after: post.regs.acc,
    }
}

/// Counting `n + 1` steps is counting `n` and then stepping once more.
pub proof fn lemma_spec_steps_succ(n: nat, s: MachineState)
    ensures
        spec_steps(n + 1, s) == (match spec_steps(n, s) {
            Ok(t) => spec_step(t),
            Err(e) => Err(e),
        }),
    decreases n,
{
    if n > 0 {
        match spec_step(s) {
            Ok(s2) => {
                lemma_spec_steps_succ((n - 1) as nat, s2);
            },
            Err(_) => {},
        }
    } else {
        match spec_step(s) {
            Ok(s2) => {
                assert(spec_steps(0, s2) == Ok::<MachineState, VmError>(s2));
            },
            Err(_) => {},
        }
    }
}

/// A step count that has ended in an error stays an error however much
/// further the count goes.
pub proof fn lemma_spec_steps_err_absorbs(n: nat, m: nat, s: MachineState, e: VmError)
    requires
        n <= m,
        spec_steps(n, s) == Err::<MachineState, VmError>(e),
    ensures
        spec_steps(m, s) == Err::<MachineState, VmError>(e),
    decreases n,
{
    if n > 0 {
        match spec_step(s) {
            Ok(s2) => {
                lemma_spec_steps_err_absorbs((n - 1) as nat, (m - 1) as nat, s2, e);
            },
            Err(_) => {},
        }
    }
}

impl Instruction {
    /// Applies this instruction word to the registers, writing memory only
    /// for STORE, and returns the new registers; decoding or applying it
    /// can instead raise the fatal error that `spec_step` gives it. On an
    /// error, memory is left unchanged.
    pub fn exec(&self, regs: Regs, mem: &mut Vec<u16>) -> (r: Result<Regs, VmError>)
        requires
            old(mem)@.len() <= MAX_MEM,
            regs.pc < u16::MAX,
        ensures
            match r {
                Ok(r2) => {
                    &&& type_of_opcode(w_opcode(self.w)) is Some
                    &&& spec_apply(
                        type_of_opcode(w_opcode(self.w))->Some_0,
                        w_operand(self.w),
                        regs,
                        old(mem)@,
                    ) == Ok::<(Regs, Seq<u16>), VmError>((r2, final(mem)@))
                },
                Err(e) => {
                    &&& final(mem)@ == old(mem)@
                    &&& match type_of_opcode(w_opcode(self.w)) {
                        None => e == VmError::UnknownOpcode(w_opcode(self.w)),
                        Some(t) => spec_apply(t, w_operand(self.w), regs, old(mem)@) == Err::<
                            (Regs, Seq<u16>),
                            VmError,
                        >(e),
                    }
                },
            },
    {
        let t = match self.get_type() {
            Ok(t) => t,
            Err(e) => {
                return Err(e);
            },
        };
        let n = self.n();
        match t {
            InstrType::Add => {
                if n as usize >= mem.len() {
                    return Err(VmError::AddressOutOfRange(n));
                }
                match regs.acc.add(Integer::load(n, mem)) {
                    Ok(acc) => Ok(Regs { acc, pc: regs.pc + 1 }),
                    Err(e) => Err(e),
                }
            },
            InstrType::Sub => {
                if n as usize >= mem.len() {
                    return Err(VmError::AddressOutOfRange(n));
                }
                match regs.acc.sub(Integer::load(n, mem)) {
                    Ok(acc) => Ok(Regs { acc, pc: regs.pc + 1 }),
                    Err(e) => Err(e),
                }
            },
            InstrType::Store => {
                if n as usize >= mem.len() {
                    return Err(VmError::AddressOutOfRange(n));
                }
                mem.set(n as usize, regs.acc.w);
                Ok(Regs { acc: regs.acc, pc: regs.pc + 1 })
            },
            InstrType::Clear => Ok(Regs { acc: Integer::new(0), pc: regs.pc + 1 }),
            InstrType::Or => {
                if n as usize >= mem.len() {
                    return Err(VmError::AddressOutOfRange(n));
                }
                Ok(Regs { acc: regs.acc.bitor(Integer::load(n, mem)), pc: regs.pc + 1 })
            },
            InstrType::And => {
                if n as usize >= mem.len() {
                    return Err(VmError::AddressOutOfRange(n));
                }
                Ok(Regs { acc: regs.acc.bitand(Integer::load(n, mem)), pc: regs.pc + 1 })
            },
            InstrType::Shiftr => Ok(Regs { acc: regs.acc.shr(n), pc: regs.pc + 1 }),
            InstrType::Shiftl => Ok(Regs { acc: regs.acc.shl(n), pc: regs.pc + 1 }),
            InstrType::Bge => {
                let pc = if !regs.acc.less_than_zero() {
                    n
                } else {
                    regs.pc + 1
                };
                Ok(Regs { acc: regs.acc, pc })
            },
            InstrType::Blt => {
                let pc = if regs.acc.less_than_zero() {
                    n
                } else {
                    regs.pc + 1
                };
                Ok(Regs { acc: regs.acc, pc })
            },
            InstrType::End => Ok(Regs { acc: regs.acc, pc: regs.pc }),
        }
    }
}

/// Runs the fetch-execute loop from start address `pc` until a decoded
/// END halts the machine, but for at most `max_steps` steps: the
/// instruction set has no halt condition besides END, so a program that
/// never reaches one would run forever, and the caller-supplied ceiling
/// makes that case fail with `StepLimitExceeded` instead. On success the
/// final registers are returned with the per-step trace, one record per
/// executed step, the halting END included.
#[verifier::rlimit(60)]
pub fn run(pc: u16, mem: &mut Vec<u16>, max_steps: usize) -> (r: Result<
    (Regs, Vec<TraceEntry>),
    VmError,
>)
    requires
        old(mem)@.len() <= MAX_MEM,
    ensures
        ({
            let init = MachineState {
                regs: Regs { acc: Integer { w: 0 }, pc },
                mem: old(mem)@,
                halted: false,
            };
            match r {
                Ok(rt) => {
                    &&& rt.1@.len() <= max_steps
                    &&& spec_steps(rt.1@.len() as nat, init) == Ok::<MachineState, VmError>(
                        MachineState { regs: rt.0, mem: final(mem)@, halted: true },
                    )
                    &&& forall|i: int|
                        0 <= i < rt.1@.len() ==> {
                            &&& spec_steps(i as nat, init) is Ok
                            &&& spec_steps((i + 1) as nat, init) is Ok
                            &&& !spec_steps(i as nat, init)->Ok_0.halted
                            &&& (#[trigger] rt.1@[i]) == spec_entry(
                                spec_steps(i as nat, init)->Ok_0,
                                spec_steps((i + 1) as nat, init)->Ok_0,
                            )
                        }
                },
                Err(e) => {
                    if e == VmError::StepLimitExceeded {
                        &&& spec_steps(max_steps as nat, init) matches Ok(s) && !s.halted
                            && final(mem)@ == s.mem
                    } else {
                        &&& spec_steps(max_steps as nat, init) == Err::<MachineState, VmError>(e)
                        &&& exists|k: nat|
                            #![trigger spec_steps(k, init)]
                            {
                                &&& k < max_steps
                                &&& spec_steps(k, init) matches Ok(s) && final(mem)@ == s.mem
                            }
                    }
                },
            }
        }),
{
    let ghost init = MachineState {
        regs: Regs { acc: Integer { w: 0 }, pc },
        mem: old(mem)@,
        halted: false,
    };
    let mut regs = Regs::new(pc);
    let mut trace: Vec<TraceEntry> = Vec::new();
    let mut steps: usize = 0;
    while steps < max_steps
        invariant
            init == (MachineState {
                regs: Regs { acc: Integer { w: 0 }, pc },
                mem: old(mem)@,
                halted: false,
            }),
            mem@.len() == init.mem.len(),
            init.mem.len() <= MAX_MEM,
            steps <= max_steps,
            steps == trace@.len(),
            spec_steps(steps as nat, init) == Ok::<MachineState, VmError>(
                MachineState { regs, mem: mem@, halted: false },
            ),
            forall|i: int|
                0 <= i < steps ==> {
                    &&& spec_steps(i as nat, init) is Ok
                    &&& spec_steps((i + 1) as nat, init) is Ok
                    &&& !spec_steps(i as nat, init)->Ok_0.halted
                    &&& (#[trigger] trace@[i]) == spec_entry(
                        spec_steps(i as nat, init)->Ok_0,
                        spec_steps((i + 1) as nat, init)->Ok_0,
                    )
                },
        decreases max_steps - steps,
    {
        let ghost cur = MachineState { regs, mem: mem@, halted: false };
        let cpc = regs.pc;
        if cpc as usize >= mem.len() {
            let e = VmError::AddressOutOfRange(cpc);
            proof {
                assert(spec_step(cur) == Err::<MachineState, VmError>(e));
                lemma_spec_steps_succ(steps as nat, init);
                assert(spec_steps((steps + 1) as nat, init) == Err::<MachineState, VmError>(e));
                lemma_spec_steps_err_absorbs((steps + 1) as nat, max_steps as nat, init, e);
                assert(spec_steps(steps as nat, init) matches Ok(s) && mem@ == s.mem);
            }
            return Err(e);
        }
        let instr = Instruction::load(cpc, mem);
        let t = match instr.get_type() {
            Ok(t) => t,
            Err(e) => {
                proof {
                    assert(spec_step(cur) == Err::<MachineState, VmError>(e));
                    lemma_spec_steps_succ(steps as nat, init);
                    assert(spec_steps((steps + 1) as nat, init) == Err::<MachineState, VmError>(
                        e,
                    ));
                    lemma_spec_steps_err_absorbs((steps + 1) as nat, max_steps as nat, init, e);
                    assert(spec_steps(steps as nat, init) matches Ok(s) && mem@ == s.mem);
                }
                return Err(e);
            },
        };
        let acc_before = regs.acc;
        match instr.exec(regs, mem) {
            Err(e) => {
                proof {
                    assert(spec_step(cur) == Err::<MachineState, VmError>(e));
                    lemma_spec_steps_succ(steps as nat, init);
                    lemma_spec_steps_err_absorbs((steps + 1) as nat, max_steps as nat, init, e);
                }
                return Err(e);
            },
            Ok(r2) => {
                let halting = t == InstrType::End;
                let ghost next = MachineState { regs: r2, mem: mem@, halted: halting };
                trace.push(
                    TraceEntry { pc: cpc, op: t, n: instr.n(), acc_before, acc_after: r2.acc },
                );
                proof {
                    assert(spec_step(cur) == Ok::<MachineState, VmError>(next));
                    lemma_spec_steps_succ(steps as nat, init);
                    assert(spec_steps((steps + 1) as nat, init) == Ok::<MachineState, VmError>(
                        next,
                    ));
                }
                if halting {
                    return Ok((r2, trace));
                }
                regs = r2;
                steps = steps + 1;
            },
        }
    }
    proof {
        assert(spec_steps(max_steps as nat, init) matches Ok(s) && !s.halted && mem@ == s.mem);
    }
    Err(VmError::StepLimitExceeded)
}

/// BGE branches to its operand exactly when the accumulator is not
/// negative, BLT exactly when it is; a fall-through advances the program
/// counter by one, and neither operation alters the accumulator or
/// memory.
pub proof fn lemma_branch_semantics(n: u16, regs: Regs, mem: Seq<u16>)
    requires
        regs.pc < u16::MAX,
    ensures
        spec_apply(InstrType::Bge, n, regs, mem) == Ok::<(Regs, Seq<u16>), VmError>(
            (
                Regs {
                    acc: regs.acc,
                    pc: if regs.acc.val() >= 0 {
                        n
                    } else {
                        (regs.pc + 1) as u16
                    },
                },
                mem,
            ),
        ),
        spec_apply(InstrType::Blt, n, regs, mem) == Ok::<(Regs, Seq<u16>), VmError>(
            (
                Regs {
                    acc: regs.acc,
                    pc: if regs.acc.val() < 0 {
                        n
                    } else {
                        (regs.pc + 1) as u16
                    },
                },
                mem,
            ),
        ),
{
}

/// STORE writes exactly the accumulator's raw bit pattern to the
/// addressed cell, leaves every other cell unchanged, and leaves the
/// accumulator itself unchanged.
pub proof fn lemma_store_semantics(n: u16, regs: Regs, mem: Seq<u16>)
    requires
        regs.pc < u16::MAX,
        (n as int) < mem.len(),
    ensures
        spec_apply(InstrType::Store, n, regs, mem) matches Ok(rm) && {
            &&& rm.0 == (Regs { acc: regs.acc, pc: (regs.pc + 1) as u16 })
            &&& rm.1.len() == mem.len()
            &&& rm.1[n as int] == regs.acc.w
            &&& forall|i: int| 0 <= i < mem.len() && i != n ==> rm.1[i] == mem[i]
        },
{
}

} // verus!
