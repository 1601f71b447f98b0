use crate::engine::{
    complete_step, cycles_bound, cycles_left, cycles_many, execute_many, execute_whole, finish,
    instruction_cycles, operand_address, read_address, step, steps,
};
use crate::state::{add_wrapping, resume_at, ExecState, Phase, Status, OPCODE_LOAD_ABSOLUTE_Y};
use vstd::arithmetic::div_mod::lemma_add_mod_noop_right;
use vstd::prelude::*;

verus! {

proof fn lemma_add_wrapping(c: u64, a: int, b: int)
    requires
        a >= 0,
        b >= 0,
    ensures
        add_wrapping(add_wrapping(c, a), b) == add_wrapping(c, a + b),
{
    lemma_add_mod_noop_right(b, c + a, 0x1_0000_0000_0000_0000);
}

/// What follows a completed step: the instruction ends there, or runs on.
spec fn continue_after(p: (ExecState, Status), mem: Seq<u8>) -> ExecState {
    if p.1 == Status::InstructionComplete {
        p.0
    } else {
        finish(p.0, mem)
    }
}

/// The cycles that follow a completed step.
spec fn cycles_after(p: (ExecState, Status), mem: Seq<u8>) -> int {
    if p.1 == Status::InstructionComplete {
        0
    } else {
        cycles_left(p.0, mem) as int
    }
}

/// The state at the last cycle of a step begun at tick zero: six cycles
/// counted, and the timed read's byte latched.
spec fn step_elapsed(s: ExecState, mem: Seq<u8>) -> ExecState {
    ExecState {
        total_cycles: add_wrapping(s.total_cycles, 6),
        data_latch: if s.resume_point.phase == Phase::PageCrossingWait {
            s.data_latch
        } else {
            mem[read_address(s) as int]
        },
        ..s
    }
}

/// A cycle before the last of a step only counts itself and, at the end of
/// the read latency, latches the byte read.
proof fn lemma_inner_cycle(s: ExecState, mem: Seq<u8>)
    requires
        s.resume_point.tick < 5,
    ensures
        step(s, mem).1 == Status::Running,
        step(s, mem).0 == (ExecState {
            total_cycles: add_wrapping(s.total_cycles, 1),
            resume_point: resume_at(s.resume_point.phase, (s.resume_point.tick + 1) as u8),
            data_latch: if s.resume_point.tick == 1 && s.resume_point.phase
                != Phase::PageCrossingWait {
                mem[read_address(s) as int]
            } else {
                s.data_latch
            },
            ..s
        }),
        finish(s, mem) == finish(step(s, mem).0, mem),
        cycles_left(s, mem) == 1 + cycles_left(step(s, mem).0, mem),
{
}

/// A step begun at tick zero runs six cycles, then completes.
proof fn lemma_whole_step(s: ExecState, mem: Seq<u8>)
    requires
        s.resume_point.tick == 0,
    ensures
        finish(s, mem) == continue_after(complete_step(step_elapsed(s, mem)), mem),
        cycles_left(s, mem) == 6 + cycles_after(complete_step(step_elapsed(s, mem)), mem),
{
    let c = s.total_cycles;
    lemma_inner_cycle(s, mem);
    let s1 = step(s, mem).0;
    lemma_inner_cycle(s1, mem);
    let s2 = step(s1, mem).0;
    lemma_inner_cycle(s2, mem);
    let s3 = step(s2, mem).0;
    lemma_inner_cycle(s3, mem);
    let s4 = step(s3, mem).0;
    lemma_inner_cycle(s4, mem);
    let s5 = step(s4, mem).0;
    lemma_add_wrapping(c, 1, 1);
    lemma_add_wrapping(c, 2, 1);
    lemma_add_wrapping(c, 3, 1);
    lemma_add_wrapping(c, 4, 1);
    lemma_add_wrapping(c, 5, 1);
    assert(s5 == (ExecState {
        total_cycles: add_wrapping(c, 5),
        resume_point: resume_at(s.resume_point.phase, 5),
        data_latch: step_elapsed(s, mem).data_latch,
        ..s
    }));
    assert(step(s5, mem) == complete_step(step_elapsed(s, mem)));
    assert(finish(s5, mem) == continue_after(step(s5, mem), mem));
    assert(cycles_left(s5, mem) == 1 + cycles_after(step(s5, mem), mem));
}

/// Stepping one instruction cycle by cycle from a boundary ends in the state
/// the whole instruction produces, after exactly its cycle count: six for an
/// unknown opcode, twenty-four for the load, thirty when the load crosses a
/// page.
#[verifier::rlimit(60)]
pub proof fn lemma_stepping_matches_whole(s: ExecState, mem: Seq<u8>)
    requires
        s.at_boundary(),
    ensures
        finish(s, mem) == execute_whole(s, mem),
        cycles_left(s, mem) == instruction_cycles(s, mem),
{
    let c = s.total_cycles;
    lemma_whole_step(s, mem);
    let f = complete_step(step_elapsed(s, mem));
    if mem[s.program_counter as int] == OPCODE_LOAD_ABSOLUTE_Y {
        let t1 = f.0;
        lemma_whole_step(t1, mem);
        let t2 = complete_step(step_elapsed(t1, mem)).0;
        lemma_whole_step(t2, mem);
        let t3 = complete_step(step_elapsed(t2, mem)).0;
        assert(t3.address_latch == operand_address(s.program_counter, mem));
        lemma_whole_step(t3, mem);
        lemma_add_wrapping(c, 6, 6);
        lemma_add_wrapping(c, 12, 6);
        if t3.resume_point.phase == Phase::PageCrossingWait {
            let t4 = complete_step(step_elapsed(t3, mem)).0;
            lemma_whole_step(t4, mem);
            lemma_add_wrapping(c, 18, 6);
            lemma_add_wrapping(c, 24, 6);
            assert(finish(s, mem) == execute_whole(s, mem));
        } else {
            lemma_add_wrapping(c, 18, 6);
            assert(finish(s, mem) == execute_whole(s, mem));
        }
    }
}

/// Whatever cycle execution is suspended at, completing the instruction
/// leaves the engine at a boundary, ready to fetch the next opcode.
pub proof fn lemma_finish_at_boundary(s: ExecState, mem: Seq<u8>)
    requires
        s.wf(),
    ensures
        finish(s, mem).at_boundary(),
    decreases cycles_bound(s),
{
    let (t, status) = step(s, mem);
    if status == Status::Running {
        lemma_finish_at_boundary(t, mem);
    }
}

/// Suspending an instruction after any `k` of its cycles and continuing
/// from the captured state alone completes it exactly as an uninterrupted
/// run does: same final state, the remaining cycles, and completion
/// reported on the last of them only.
pub proof fn lemma_resume_mid_instruction(s: ExecState, mem: Seq<u8>, k: nat)
    requires
        s.wf(),
        k < cycles_left(s, mem),
    ensures
        steps(s, mem, k).wf(),
        finish(steps(s, mem, k), mem) == finish(s, mem),
        cycles_left(steps(s, mem, k), mem) == cycles_left(s, mem) - k,
        step(steps(s, mem, k), mem).1 == (if k + 1 == cycles_left(s, mem) {
            Status::InstructionComplete
        } else {
            Status::Running
        }),
    decreases k,
{
    let (t, status) = step(s, mem);
    if k > 0 {
        lemma_resume_mid_instruction(t, mem, (k - 1) as nat);
    } else if status == Status::Running {
        assert(cycles_left(t, mem) >= 1);
    }
}

proof fn lemma_steps_last(s: ExecState, mem: Seq<u8>, k: nat)
    ensures
        steps(s, mem, k + 1) == step(steps(s, mem, k), mem).0,
    decreases k,
{
    let t = step(s, mem).0;
    if k > 0 {
        lemma_steps_last(t, mem, (k - 1) as nat);
    } else {
        assert(steps(t, mem, 0) == t);
    }
}

proof fn lemma_steps_add(s: ExecState, mem: Seq<u8>, a: nat, b: nat)
    ensures
        steps(s, mem, a + b) == steps(steps(s, mem, a), mem, b),
    decreases a,
{
    if a > 0 {
        lemma_steps_add(step(s, mem).0, mem, (a - 1) as nat, b);
    }
}

/// Running the engine for exactly the cycles of the current instruction
/// lands where that instruction completes.
pub proof fn lemma_steps_reach_finish(s: ExecState, mem: Seq<u8>)
    requires
        s.wf(),
    ensures
        steps(s, mem, cycles_left(s, mem)) == finish(s, mem),
{
    let k = (cycles_left(s, mem) - 1) as nat;
    lemma_resume_mid_instruction(s, mem, k);
    lemma_steps_last(s, mem, k);
}

/// A driver that resumes the engine one cycle at a time reaches, after the
/// cycles of `n` instructions, the same state as `n` whole-instruction
/// executions: how the engine is driven does not change what it computes.
pub proof fn lemma_drivers_agree(s: ExecState, mem: Seq<u8>, n: nat)
    requires
        s.at_boundary(),
    ensures
        execute_many(s, mem, n).at_boundary(),
        steps(s, mem, cycles_many(s, mem, n)) == execute_many(s, mem, n),
    decreases n,
{
    if n > 0 {
        let m = (n - 1) as nat;
        lemma_drivers_agree(s, mem, m);
        let e = execute_many(s, mem, m);
        lemma_stepping_matches_whole(e, mem);
        lemma_steps_reach_finish(e, mem);
        lemma_steps_add(s, mem, cycles_many(s, mem, m), cycles_left(e, mem));
    }
}

} // verus!
