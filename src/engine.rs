use crate::laws::{lemma_finish_at_boundary, lemma_stepping_matches_whole};
use crate::memory::{Memory, MEM_SIZE};
use crate::state::{
    add_wrapping, crosses_page, reset_state, effective_address, next_pc, resume_at, ExecState, Phase,
    ResumePoint, Status, OPCODE_LOAD_ABSOLUTE_Y, READ_LATENCY, STEP_CYCLES,
};
use vstd::prelude::*;

verus! {

/// The address the timed read of the current step samples.
pub open spec fn read_address(s: ExecState) -> u16 {
    if s.resume_point.phase == Phase::FinalRead {
        effective_address(s.address_latch, s.index_register_y)
    } else {
        s.program_counter
    }
}

/// End of an instruction: count it, clear the latches, fetch next.
pub open spec fn retire(s: ExecState) -> ExecState {
    ExecState {
        instructions_retired: add_wrapping(s.instructions_retired, 1),
        address_latch: 0,
        data_latch: 0,
        resume_point: resume_at(Phase::FetchOpcode, 0),
        ..s
    }
}

/// The zero-cost work done when the last cycle of a step has elapsed
/// (`s` has that cycle counted and its tick reset to zero).
pub open spec fn complete_step(s: ExecState) -> (ExecState, Status) {
    let pc = next_pc(s.program_counter);
    match s.resume_point.phase {
        Phase::FetchOpcode => {
            let fetched = ExecState { opcode: s.data_latch, program_counter: pc, ..s };
            if s.data_latch == OPCODE_LOAD_ABSOLUTE_Y {
                (
                    ExecState { resume_point: resume_at(Phase::AddressLow, 0), ..fetched },
                    Status::Running,
                )
            } else {
                (retire(fetched), Status::InstructionComplete)
            }
        },
        Phase::AddressLow => (
            ExecState {
                address_latch: s.data_latch as u16,
                program_counter: pc,
                resume_point: resume_at(Phase::AddressHigh, 0),
                ..s
            },
            Status::Running,
        ),
        Phase::AddressHigh => {
            let address = (s.data_latch * 256 + s.address_latch % 256) as u16;
            let next = if crosses_page(address, s.index_register_y) {
                Phase::PageCrossingWait
            } else {
                Phase::FinalRead
            };
            (
                ExecState {
                    address_latch: address,
                    program_counter: pc,
                    resume_point: resume_at(next, 0),
                    ..s
                },
                Status::Running,
            )
        },
        Phase::PageCrossingWait => (
            ExecState { resume_point: resume_at(Phase::FinalRead, 0), ..s },
            Status::Running,
        ),
        Phase::FinalRead => (
            retire(ExecState { accumulator: s.data_latch, ..s }),
            Status::InstructionComplete,
        ),
    }
}

/// One clock cycle: count it; on the cycle that ends a timed read's latency,
/// sample memory; on the last cycle of a step, complete the step.
pub open spec fn step(s: ExecState, mem: Seq<u8>) -> (ExecState, Status) {
    let phase = s.resume_point.phase;
    let tick = (s.resume_point.tick + 1) as u8;
    let counted = ExecState {
        total_cycles: add_wrapping(s.total_cycles, 1),
        resume_point: resume_at(phase, tick),
        ..s
    };
    let sampled = if tick == READ_LATENCY && phase != Phase::PageCrossingWait {
        ExecState { data_latch: mem[read_address(s) as int], ..counted }
    } else {
        counted
    };
    if tick < STEP_CYCLES {
        (sampled, Status::Running)
    } else {
        complete_step(ExecState { resume_point: resume_at(phase, 0), ..sampled })
    }
}

/// Cycles still owed before the current micro-step completes: the read
/// latency, then the settling of a timed read, or the rest of the wait.
pub open spec fn pending_wait(rp: ResumePoint) -> int {
    if rp.phase != Phase::PageCrossingWait && rp.tick < READ_LATENCY {
        READ_LATENCY - rp.tick
    } else {
        STEP_CYCLES - rp.tick
    }
}

pub open spec fn phase_rank(p: Phase) -> int {
    match p {
        Phase::FetchOpcode => 0,
        Phase::AddressLow => 1,
        Phase::AddressHigh => 2,
        Phase::PageCrossingWait => 3,
        Phase::FinalRead => 4,
    }
}

/// An upper bound on the cycles left in the current instruction.
pub open spec fn cycles_bound(s: ExecState) -> nat {
    ((4 - phase_rank(s.resume_point.phase)) * STEP_CYCLES + STEP_CYCLES
        - s.resume_point.tick) as nat
}

/// The state in which the current instruction completes, stepping one cycle
/// at a time.
pub open spec fn finish(s: ExecState, mem: Seq<u8>) -> ExecState
    decreases cycles_bound(s),
{
    if !s.wf() {
        s
    } else {
        let (t, status) = step(s, mem);
        if status == Status::InstructionComplete {
            t
        } else {
            finish(t, mem)
        }
    }
}

/// The number of cycles until the current instruction completes.
pub open spec fn cycles_left(s: ExecState, mem: Seq<u8>) -> nat
    decreases cycles_bound(s),
{
    if !s.wf() {
        0
    } else {
        let (t, status) = step(s, mem);
        if status == Status::InstructionComplete {
            1
        } else {
            1 + cycles_left(t, mem)
        }
    }
}

/// The two operand bytes of an instruction fetched at `pc`, low byte first.
pub open spec fn operand_address(pc: u16, mem: Seq<u8>) -> u16 {
    let low = mem[next_pc(pc) as int];
    let high = mem[next_pc(next_pc(pc)) as int];
    (high * 256 + low) as u16
}

/// Cycles the instruction at the program counter takes: six per timed read,
/// and six more when indexing crosses a page.
pub open spec fn instruction_cycles(s: ExecState, mem: Seq<u8>) -> int {
    if mem[s.program_counter as int] != OPCODE_LOAD_ABSOLUTE_Y {
        6
    } else if crosses_page(operand_address(s.program_counter, mem), s.index_register_y) {
        30
    } else {
        24
    }
}

/// The effect of one whole instruction started at a boundary.
pub open spec fn execute_whole(s: ExecState, mem: Seq<u8>) -> ExecState {
    let pc = s.program_counter;
    let opcode = mem[pc as int];
    let done = ExecState {
        opcode,
        total_cycles: add_wrapping(s.total_cycles, instruction_cycles(s, mem)),
        instructions_retired: add_wrapping(s.instructions_retired, 1),
        address_latch: 0,
        data_latch: 0,
        ..s
    };
    if opcode != OPCODE_LOAD_ABSOLUTE_Y {
        ExecState { program_counter: next_pc(pc), ..done }
    } else {
        let address = operand_address(pc, mem);
        ExecState {
            program_counter: next_pc(next_pc(next_pc(pc))),
            accumulator: mem[effective_address(address, s.index_register_y) as int],
            ..done
        }
    }
}

/// `n` whole instructions in a row.
pub open spec fn execute_many(s: ExecState, mem: Seq<u8>, n: nat) -> ExecState
    decreases n,
{
    if n == 0 {
        s
    } else {
        execute_whole(execute_many(s, mem, (n - 1) as nat), mem)
    }
}

/// The state after `k` single-cycle steps.
pub open spec fn steps(s: ExecState, mem: Seq<u8>, k: nat) -> ExecState
    decreases k,
{
    if k == 0 {
        s
    } else {
        steps(step(s, mem).0, mem, (k - 1) as nat)
    }
}

/// Cycles that `n` whole instructions in a row take.
pub open spec fn cycles_many(s: ExecState, mem: Seq<u8>, n: nat) -> nat
    decreases n,
{
    if n == 0 {
        0
    } else {
        cycles_many(s, mem, (n - 1) as nat) + instruction_cycles(
            execute_many(s, mem, (n - 1) as nat),
            mem,
        ) as nat
    }
}

/// The engine: execution state and the memory it owns.
pub struct CPU {
    pub state: ExecState,
    pub memory: Memory,
}

impl CPU {
    /// A reset processor over memory in which every byte is the load opcode.
    pub fn new() -> (r: CPU)
        ensures
            r.state == reset_state(),
            r.memory@.len() == MEM_SIZE,
            forall|i: int| 0 <= i < MEM_SIZE ==> #[trigger] r.memory@[i] == OPCODE_LOAD_ABSOLUTE_Y,
    {
        CPU { state: ExecState::new(), memory: Memory::filled(OPCODE_LOAD_ABSOLUTE_Y) }
    }

    /// A reset processor over the given memory.
    pub fn with_memory(memory: Memory) -> (r: CPU)
        ensures
            r.state == reset_state(),
            r.memory@ == memory@,
    {
        CPU { state: ExecState::new(), memory }
    }

    /// An engine that continues from a captured state.
    pub fn resume(state: ExecState, memory: Memory) -> (r: CPU)
        requires
            state.wf(),
        ensures
            r.state == state,
            r.memory@ == memory@,
    {
        CPU { state, memory }
    }

    pub open spec fn wf(&self) -> bool {
        self.state.wf()
    }

    /// Runs one clock cycle and reports whether it completed an instruction.
    pub fn advance(&mut self) -> (r: Status)
        requires
            old(self).wf(),
        ensures
            final(self).wf(),
            final(self).memory@ == old(self).memory@,
            (final(self).state, r) == step(old(self).state, old(self).memory@),
    {
        let phase = self.state.resume_point.phase;
        let tick: u8 = self.state.resume_point.tick + 1;
        self.state.total_cycles = self.state.total_cycles.wrapping_add(1);
        self.state.resume_point = ResumePoint { phase, tick };
        let samples = match phase {
            Phase::PageCrossingWait => false,
            _ => tick == READ_LATENCY,
        };
        if samples {
            let address = match phase {
                Phase::FinalRead => self.state.address_latch.wrapping_add(
                    self.state.index_register_y as u16,
                ),
                _ => self.state.program_counter,
            };
            self.state.data_latch = self.memory.read(address);
        }
        if tick < STEP_CYCLES {
            Status::Running
        } else {
            self.state.resume_point = ResumePoint { phase, tick: 0 };
            self.complete_step()
        }
    }

    fn retire(&mut self)
        ensures
            final(self).memory@ == old(self).memory@,
            final(self).state == retire(old(self).state),
    {
        self.state.instructions_retired = self.state.instructions_retired.wrapping_add(1);
        self.state.address_latch = 0;
        self.state.data_latch = 0;
        self.state.resume_point = ResumePoint { phase: Phase::FetchOpcode, tick: 0 };
    }

    fn complete_step(&mut self) -> (r: Status)
        ensures
            final(self).memory@ == old(self).memory@,
            (final(self).state, r) == complete_step(old(self).state),
    {
        let pc = self.state.program_counter.wrapping_add(1);
        match self.state.resume_point.phase {
            Phase::FetchOpcode => {
                self.state.opcode = self.state.data_latch;
                self.state.program_counter = pc;
                if self.state.data_latch == OPCODE_LOAD_ABSOLUTE_Y {
                    self.state.resume_point = ResumePoint { phase: Phase::AddressLow, tick: 0 };
                    Status::Running
                } else {
                    self.retire();
                    Status::InstructionComplete
                }
            },
            Phase::AddressLow => {
                self.state.address_latch = self.state.data_latch as u16;
                self.state.program_counter = pc;
                self.state.resume_point = ResumePoint { phase: Phase::AddressHigh, tick: 0 };
                Status::Running
            },
            Phase::AddressHigh => {
                let address: u16 = (self.state.data_latch as u16) * 256
                    + self.state.address_latch % 256;
                let effective = address.wrapping_add(self.state.index_register_y as u16);
                let next = if address / 256 != effective / 256 {
                    Phase::PageCrossingWait
                } else {
                    Phase::FinalRead
                };
                self.state.address_latch = address;
                self.state.program_counter = pc;
                self.state.resume_point = ResumePoint { phase: next, tick: 0 };
                Status::Running
            },
            Phase::PageCrossingWait => {
                self.state.resume_point = ResumePoint { phase: Phase::FinalRead, tick: 0 };
                Status::Running
            },
            Phase::FinalRead => {
                self.state.accumulator = self.state.data_latch;
                self.retire();
                Status::InstructionComplete
            },
        }
    }

    /// Advances cycle by cycle until the current instruction completes.
    pub fn execute_instruction(&mut self)
        requires
            old(self).wf(),
        ensures
            final(self).wf(),
            final(self).memory@ == old(self).memory@,
            final(self).state == finish(old(self).state, old(self).memory@),
            final(self).state.at_boundary(),
            old(self).state.at_boundary() ==> final(self).state == execute_whole(
                old(self).state,
                old(self).memory@,
            ),
    {
        proof {
            lemma_finish_at_boundary(self.state, self.memory@);
            if self.state.at_boundary() {
                lemma_stepping_matches_whole(self.state, self.memory@);
            }
        }
        let ghost target = finish(self.state, self.memory@);
        let mut done = false;
        while !done
            invariant
                self.wf(),
                self.memory@ == old(self).memory@,
                target == finish(old(self).state, old(self).memory@),
                !done ==> finish(self.state, self.memory@) == target,
                done ==> self.state == target,
            decreases
                if done { 0 } else { cycles_bound(self.state) + 1 },
        {
            let status = self.advance();
            done = match status {
                Status::InstructionComplete => true,
                Status::Running => false,
            };
        }
    }

    /// Runs `n` whole instructions from a boundary.
    pub fn run(&mut self, n: u64)
        requires
            old(self).wf(),
            old(self).state.at_boundary(),
        ensures
            final(self).wf(),
            final(self).memory@ == old(self).memory@,
            final(self).state == execute_many(old(self).state, old(self).memory@, n as nat),
    {
        let mut i: u64 = 0;
        while i < n
            invariant
                i <= n,
                self.wf(),
                self.state.at_boundary(),
                self.memory@ == old(self).memory@,
                self.state == execute_many(old(self).state, self.memory@, i as nat),
            decreases n - i,
        {
            self.execute_instruction();
            i = i + 1;
        }
    }

    pub fn total_cycles(&self) -> (r: u64)
        ensures
            r == self.state.total_cycles,
    {
        self.state.total_cycles
    }

    pub fn instructions_retired(&self) -> (r: u64)
        ensures
            r == self.state.instructions_retired,
    {
        self.state.instructions_retired
    }

    pub fn program_counter(&self) -> (r: u16)
        ensures
            r == self.state.program_counter,
    {
        self.state.program_counter
    }

    pub fn accumulator(&self) -> (r: u8)
        ensures
            r == self.state.accumulator,
    {
        self.state.accumulator
    }

    pub fn resume_point(&self) -> (r: ResumePoint)
        ensures
            r == self.state.resume_point,
    {
        self.state.resume_point
    }

    pub fn pending_wait_cycles(&self) -> (r: u8)
        requires
            self.wf(),
        ensures
            r == pending_wait(self.state.resume_point),
    {
        let rp = self.state.resume_point;
        let reading = match rp.phase {
            Phase::PageCrossingWait => false,
            _ => true,
        };
        if reading && rp.tick < READ_LATENCY {
            READ_LATENCY - rp.tick
        } else {
            STEP_CYCLES - rp.tick
        }
    }
}

} // verus!
