use cycle_cpu::engine::CPU;
use cycle_cpu::memory::{Memory, MEM_SIZE};
use cycle_cpu::state::{ExecState, Phase, ResumePoint, Status};

fn memory_with(prefix: &[u8], fill: u8) -> Memory {
    let mut bytes = vec![fill; MEM_SIZE];
    bytes[..prefix.len()].copy_from_slice(prefix);
    Memory::from_bytes(bytes)
}

fn cpu_with_y(prefix: &[u8], fill: u8, y: u8) -> CPU {
    let mut state = ExecState::new();
    state.index_register_y = y;
    CPU::resume(state, memory_with(prefix, fill))
}

/// Drives one instruction by single cycles; returns the number of calls.
fn step_instruction(cpu: &mut CPU) -> u64 {
    let mut calls = 0u64;
    loop {
        calls += 1;
        if cpu.advance() == Status::InstructionComplete {
            return calls;
        }
    }
}

#[test]
fn load_filled_memory_takes_24_cycles() {
    let mut cpu = CPU::new();
    cpu.execute_instruction();
    assert_eq!(cpu.total_cycles(), 24);
    assert_eq!(cpu.instructions_retired(), 1);
    assert_eq!(cpu.program_counter(), 3);
    assert_eq!(cpu.accumulator(), 0xb9);

    let mut stepped = CPU::new();
    assert_eq!(step_instruction(&mut stepped), 24);
    assert_eq!(stepped.total_cycles(), 24);

    let mut run = CPU::new();
    run.run(1);
    assert_eq!(run.total_cycles(), 24);
}

#[test]
fn each_advance_counts_one_cycle() {
    let mut cpu = CPU::new();
    for k in 1..24u64 {
        assert_eq!(cpu.advance(), Status::Running);
        assert_eq!(cpu.total_cycles(), k);
        assert_eq!(cpu.instructions_retired(), 0);
    }
    assert_eq!(cpu.advance(), Status::InstructionComplete);
    assert_eq!(cpu.total_cycles(), 24);
    assert_eq!(cpu.instructions_retired(), 1);
    assert_eq!(cpu.resume_point(), ResumePoint { phase: Phase::FetchOpcode, tick: 0 });
}

#[test]
fn accessors_do_not_change_state() {
    let mut cpu = CPU::new();
    for _ in 0..10 {
        cpu.advance();
    }
    let before = cpu.state;
    for _ in 0..5 {
        assert_eq!(cpu.total_cycles(), 10);
        assert_eq!(cpu.instructions_retired(), 0);
        let _ = cpu.program_counter();
        let _ = cpu.accumulator();
        let _ = cpu.resume_point();
    }
    assert_eq!(cpu.state, before);
}

fn drivers_agree_on(n: u64) {
    let mut whole = CPU::new();
    for _ in 0..n {
        whole.execute_instruction();
    }
    let mut stepped = CPU::new();
    for _ in 0..n {
        step_instruction(&mut stepped);
    }
    let mut run = CPU::new();
    run.run(n);
    for other in [&stepped, &run] {
        assert_eq!(other.total_cycles(), whole.total_cycles());
        assert_eq!(other.instructions_retired(), whole.instructions_retired());
        assert_eq!(other.program_counter(), whole.program_counter());
        assert_eq!(other.accumulator(), whole.accumulator());
    }
    assert_eq!(whole.instructions_retired(), n);
    assert_eq!(whole.total_cycles(), 24 * n);
}

#[test]
fn drivers_agree_on_one_instruction() {
    drivers_agree_on(1);
}

#[test]
fn drivers_agree_on_ten_instructions() {
    drivers_agree_on(10);
}

#[test]
fn drivers_agree_on_ten_thousand_instructions() {
    drivers_agree_on(10000);
}

#[test]
fn page_crossing_costs_six_cycles() {
    let mut cpu = cpu_with_y(&[0xb9, 0xff, 0x00], 0x00, 1);
    cpu.execute_instruction();
    assert_eq!(cpu.total_cycles(), 30);
    assert_eq!(cpu.state.address_latch, 0);
    assert_eq!(cpu.program_counter(), 3);

    let mut stepped = cpu_with_y(&[0xb9, 0xff, 0x00], 0x00, 1);
    assert_eq!(step_instruction(&mut stepped), 30);
}

#[test]
fn crossing_loads_from_next_page() {
    let mut prefix = vec![0u8; 0x101];
    prefix[0] = 0xb9;
    prefix[1] = 0xff;
    prefix[2] = 0x00;
    prefix[0x100] = 0x5a;
    let mut cpu = cpu_with_y(&prefix, 0x00, 1);
    cpu.execute_instruction();
    assert_eq!(cpu.accumulator(), 0x5a);
}

#[test]
fn no_page_crossing_no_penalty() {
    let mut prefix = vec![0u8; 0x12];
    prefix[0] = 0xb9;
    prefix[1] = 0x10;
    prefix[2] = 0x00;
    prefix[0x11] = 0x42;
    let mut cpu = cpu_with_y(&prefix, 0x00, 1);
    cpu.execute_instruction();
    assert_eq!(cpu.total_cycles(), 24);
    assert_eq!(cpu.accumulator(), 0x42);
}

#[test]
fn address_is_assembled_low_byte_first() {
    let mut prefix = vec![0u8; 0x1235];
    prefix[0] = 0xb9;
    prefix[1] = 0x34;
    prefix[2] = 0x12;
    prefix[0x1234] = 0x77;
    let mut cpu = cpu_with_y(&prefix, 0x00, 0);
    cpu.execute_instruction();
    assert_eq!(cpu.accumulator(), 0x77);
}

#[test]
fn effective_address_wraps() {
    let mut bytes = vec![0u8; MEM_SIZE];
    bytes[0] = 0xb9;
    bytes[1] = 0xff;
    bytes[2] = 0xff;
    let mut state = ExecState::new();
    state.index_register_y = 2;
    // operand 0xFFFF + 2 wraps to 0x0001, which holds 0xff, crossing a page
    let mut cpu = CPU::resume(state, Memory::from_bytes(bytes));
    cpu.execute_instruction();
    assert_eq!(cpu.accumulator(), 0xff);
    assert_eq!(cpu.total_cycles(), 30);
}

#[test]
fn program_counter_wraps() {
    let mut state = ExecState::new();
    state.program_counter = 0xffff;
    let mut cpu = CPU::resume(state, memory_with(&[], 0xea));
    cpu.execute_instruction();
    assert_eq!(cpu.program_counter(), 0x0000);
    assert_eq!(cpu.total_cycles(), 6);
    assert_eq!(cpu.instructions_retired(), 1);
}

#[test]
fn operand_fetch_wraps_program_counter() {
    let mut bytes = vec![0u8; MEM_SIZE];
    bytes[0xfffe] = 0xb9;
    bytes[0xffff] = 0x03;
    bytes[0x0000] = 0x00;
    bytes[0x0003] = 0x99;
    let mut state = ExecState::new();
    state.program_counter = 0xfffe;
    let mut cpu = CPU::resume(state, Memory::from_bytes(bytes));
    cpu.execute_instruction();
    assert_eq!(cpu.program_counter(), 0x0001);
    assert_eq!(cpu.accumulator(), 0x99);
}

#[test]
fn unknown_opcode_takes_fetch_only() {
    let mut cpu = CPU::with_memory(memory_with(&[], 0xea));
    assert_eq!(step_instruction(&mut cpu), 6);
    assert_eq!(cpu.total_cycles(), 6);
    assert_eq!(cpu.program_counter(), 1);
    assert_eq!(cpu.accumulator(), 0);
    assert_eq!(cpu.state.opcode, 0xea);
}

#[test]
fn resume_from_captured_state() {
    let mut prefix = vec![0u8; 0x201];
    prefix[0] = 0xb9;
    prefix[1] = 0xf0;
    prefix[2] = 0x01;
    prefix[0x200] = 0x3c;
    let mut uninterrupted = cpu_with_y(&prefix, 0x00, 0x10);
    // fetch and low-byte read done; high-byte read not yet
    for _ in 0..14 {
        assert_eq!(uninterrupted.advance(), Status::Running);
    }
    let captured = uninterrupted.state;
    assert_eq!(captured.resume_point, ResumePoint { phase: Phase::AddressHigh, tick: 2 });
    let mut resumed = CPU::resume(captured, memory_with(&prefix, 0x00));
    uninterrupted.execute_instruction();
    resumed.execute_instruction();
    assert_eq!(resumed.state, uninterrupted.state);
    assert_eq!(resumed.accumulator(), 0x3c);
    assert_eq!(resumed.total_cycles(), 30);
}

#[test]
fn cycle_counter_wraps() {
    let mut state = ExecState::new();
    state.total_cycles = u64::MAX;
    let mut cpu = CPU::resume(state, memory_with(&[], 0xea));
    assert_eq!(cpu.advance(), Status::Running);
    assert_eq!(cpu.total_cycles(), 0);
}

#[test]
fn filled_memory_reads_its_byte() {
    let memory = Memory::filled(0x17);
    assert_eq!(memory.read(0), 0x17);
    assert_eq!(memory.read(0xffff), 0x17);
    let memory = memory_with(&[1, 2, 3], 9);
    assert_eq!(memory.read(2), 3);
    assert_eq!(memory.read(3), 9);
}

#[test]
fn pending_wait_counts_down_latency_then_settling() {
    let mut cpu = CPU::new();
    assert_eq!(cpu.pending_wait_cycles(), 2);
    cpu.advance();
    assert_eq!(cpu.pending_wait_cycles(), 1);
    cpu.advance();
    assert_eq!(cpu.pending_wait_cycles(), 4);
    cpu.advance();
    assert_eq!(cpu.pending_wait_cycles(), 3);
}

#[test]
fn page_wait_owes_the_rest_of_the_penalty() {
    let mut cpu = cpu_with_y(&[0xb9, 0xff, 0x00], 0x00, 1);
    for _ in 0..19 {
        cpu.advance();
    }
    assert_eq!(cpu.resume_point(), ResumePoint { phase: Phase::PageCrossingWait, tick: 1 });
    assert_eq!(cpu.pending_wait_cycles(), 5);
}
