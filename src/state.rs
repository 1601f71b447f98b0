use vstd::prelude::*;

verus! {

/// The one decoded instruction: load the accumulator, absolute address
/// indexed by Y.
pub const OPCODE_LOAD_ABSOLUTE_Y: u8 = 0xb9;

/// Cycles of latency before a timed read samples memory.
pub const READ_LATENCY: u8 = 2;

/// Cycles every step of an instruction lasts: a timed read (latency plus
/// settling) or the page-crossing wait.
pub const STEP_CYCLES: u8 = 6;

/// The coarse part of the resume point: which step of the instruction runs.
#[derive(Clone, Copy, Debug, PartialEq, Eq, Structural)]
pub enum Phase {
    FetchOpcode,
    AddressLow,
    AddressHigh,
    PageCrossingWait,
    FinalRead,
}

/// What one call of `advance` reports.
#[derive(Clone, Copy, Debug, PartialEq, Eq, Structural)]
pub enum Status {
    Running,
    InstructionComplete,
}

/// Where execution continues: the step, and how many of its cycles are spent.
#[derive(Clone, Copy, Debug, PartialEq, Eq, Structural)]
pub struct ResumePoint {
    pub phase: Phase,
    pub tick: u8,
}

/// The processor's execution state. Together with memory it determines all
/// remaining work; nothing else is kept between cycles.
#[derive(Clone, Copy, Debug, PartialEq, Eq, Structural)]
pub struct ExecState {
    pub program_counter: u16,
    pub index_register_y: u8,
    pub accumulator: u8,
    /// Operand address, assembled low byte first.
    pub address_latch: u16,
    pub opcode: u8,
    /// The byte sampled by the timed read in progress.
    pub data_latch: u8,
    /// Every cycle consumed so far; wraps at 2^64.
    pub total_cycles: u64,
    /// Completed instructions; wraps at 2^64.
    pub instructions_retired: u64,
    pub resume_point: ResumePoint,
}

pub open spec fn resume_at(phase: Phase, tick: u8) -> ResumePoint {
    ResumePoint { phase, tick }
}

/// The 16-bit successor, wrapping at 65536.
pub open spec fn next_pc(pc: u16) -> u16 {
    ((pc + 1) % 0x10000) as u16
}

/// `c + k`, wrapping at 2^64.
pub open spec fn add_wrapping(c: u64, k: int) -> u64 {
    ((c + k) % 0x1_0000_0000_0000_0000) as u64
}

/// The address a load reads: `address + y`, wrapping at 65536.
pub open spec fn effective_address(address: u16, y: u8) -> u16 {
    ((address + y) % 0x10000) as u16
}

/// Indexing by `y` moves the address to another 256-byte page.
pub open spec fn crosses_page(address: u16, y: u8) -> bool {
    address / 256 != effective_address(address, y) / 256
}

/// All registers and counters zero, about to fetch an opcode.
pub open spec fn reset_state() -> ExecState {
    ExecState {
        program_counter: 0,
        index_register_y: 0,
        accumulator: 0,
        address_latch: 0,
        opcode: 0,
        data_latch: 0,
        total_cycles: 0,
        instructions_retired: 0,
        resume_point: resume_at(Phase::FetchOpcode, 0),
    }
}

impl ExecState {
    /// Ticks stay below the length of a step.
    pub open spec fn wf(&self) -> bool {
        self.resume_point.tick < STEP_CYCLES
    }

    /// Between instructions: the next cycle starts fetching an opcode.
    pub open spec fn at_boundary(&self) -> bool {
        self.resume_point == resume_at(Phase::FetchOpcode, 0)
    }

    /// All registers and counters zero, about to fetch an opcode.
    pub fn new() -> (r: ExecState)
        ensures
            r == reset_state(),
    {
        ExecState {
            program_counter: 0,
            index_register_y: 0,
            accumulator: 0,
            address_latch: 0,
            opcode: 0,
            data_latch: 0,
            total_cycles: 0,
            instructions_retired: 0,
            resume_point: ResumePoint { phase: Phase::FetchOpcode, tick: 0 },
        }
    }
}

} // verus!
