use mimasim::assembly::ObjectCode;
use mimasim::mima::Mima;
use mimasim::record::{CycleSummary, MicrocycleSummary, Value};
use mimasim::types::{Flag, Register, Word};
use mimasim::unit::{MemoryType, MemoryUnit};

fn machine_for(source: &[u8]) -> Mima {
    let (object_code, _) = ObjectCode::assemble(source).unwrap();
    let mut mima = Mima::new();
    mima.memory_unit.load_code(&object_code).unwrap();
    mima
}

fn run_to_halt(mima: &mut Mima) -> usize {
    let mut steps: usize = 0;
    while mima.perform_microcycle().is_some() {
        steps += 1;
        assert!(steps <= 12_000, "machine did not halt");
    }
    steps
}

#[test]
fn scenario_load_constant_then_halt() {
    let mut mima = machine_for(b"LDC 0x42\nHLT");
    let steps = run_to_halt(&mut mima);
    assert_eq!(steps, 24);
    assert_eq!(mima.arithmetic_unit.acc, Word(0x42));
    assert_eq!(mima.control_unit.iar, Word(2));
    assert!(!mima.control_unit.is_running());
}

#[test]
fn scenario_add_two_literals() {
    let mut mima = machine_for(b"LDC 3\nADD val\nHLT\nval: DAT 4");
    run_to_halt(&mut mima);
    assert_eq!(mima.arithmetic_unit.acc, Word(7));
}

#[test]
fn scenario_negative_word_through_memory() {
    // A negative literal in a data word reads back as its full 32-bit
    // two's-complement encoding:
    let mut mima = machine_for(b"LDV val\nHLT\nval: DAT -1");
    run_to_halt(&mut mima);
    assert_eq!(mima.arithmetic_unit.acc, Word(0xFFFFFFFF));
}

#[test]
fn scenario_jmn_taken() {
    // ACC is loaded with a negative word, so the conditional jump is
    // taken and the overwriting LDC 0 is skipped:
    let mut mima = machine_for(b"LDV m\nJMN skip\nLDC 0\nskip: HLT\nm: DAT -1");
    run_to_halt(&mut mima);
    assert_eq!(mima.arithmetic_unit.acc, Word(0xFFFFFFFF));
}

#[test]
fn scenario_jmn_not_taken() {
    let mut mima = machine_for(b"LDC 1\nJMN skip\nLDC 0\nskip: HLT");
    run_to_halt(&mut mima);
    assert_eq!(mima.arithmetic_unit.acc, Word(0));
}

#[test]
fn scenario_not_and_rotate_right() {
    let mut mima = machine_for(b"LDC 1\nNOT\nRAR 1\nHLT");
    // After the first instruction (LDC 1), ACC is 1:
    for _ in 0..12 {
        mima.perform_microcycle().unwrap();
    }
    assert_eq!(mima.arithmetic_unit.acc, Word(1));
    // After NOT, ACC is the complement:
    for _ in 0..12 {
        mima.perform_microcycle().unwrap();
    }
    assert_eq!(mima.arithmetic_unit.acc, Word(0xFFFFFFFE));
    // After RAR 1, the cleared low bit has rotated into the sign bit:
    for _ in 0..12 {
        mima.perform_microcycle().unwrap();
    }
    assert_eq!(mima.arithmetic_unit.acc, Word(0x7FFFFFFF));
    run_to_halt(&mut mima);
    assert!(!mima.control_unit.is_running());
}

#[test]
fn scenario_equals() {
    let mut mima = machine_for(b"LDC 5\nEQL val\nHLT\nval: DAT 5");
    run_to_halt(&mut mima);
    assert_eq!(mima.arithmetic_unit.acc, Word(0xFFFFFFFF));
    let mut other = machine_for(b"LDC 5\nEQL val\nHLT\nval: DAT 6");
    run_to_halt(&mut other);
    assert_eq!(other.arithmetic_unit.acc, Word(0));
}

#[test]
fn scenario_store_value() {
    let mut mima = machine_for(b"LDC 5\nSTV dst\nHLT\ndst: DAT 0");
    run_to_halt(&mut mima);
    assert_eq!(mima.memory_unit.read_word(3), Word(5));
}

#[test]
fn microcycle_counter_law() {
    // Starting from 1, after N steps the counter is (N mod 12) + 1, as
    // long as no halt instruction has completed:
    let mut mima = machine_for(b"LDC 0x42\nHLT");
    for n in 0..24usize {
        assert_eq!(mima.control_unit.microcycle() as usize, (n % 12) + 1);
        assert!(mima.perform_microcycle().is_some());
    }
}

#[test]
fn halt_completion_on_thirteenth_call() {
    // A program whose first instruction is HLT stops after one cycle:
    let mut mima = machine_for(b"HLT");
    for _ in 0..12 {
        assert!(mima.perform_microcycle().is_some());
    }
    assert!(mima.perform_microcycle().is_none());
    // Further steps stay no-ops:
    assert!(mima.perform_microcycle().is_none());
}

#[test]
fn fresh_memory_halts_immediately() {
    // Uninitialized memory holds halt words, so a fresh machine stops
    // after its first instruction cycle:
    let mut mima = Mima::new();
    let steps = run_to_halt(&mut mima);
    assert_eq!(steps, 12);
}

#[test]
fn instruction_is_loaded_only_in_execute_phase() {
    let mut mima = machine_for(b"LDC 7\nHLT");
    for n in 0..24usize {
        let counter = mima.control_unit.microcycle();
        if (6..=12).contains(&counter) {
            assert!(mima.control_unit.instruction().is_some());
        } else {
            assert!(mima.control_unit.instruction().is_none());
        }
        assert!(!mima.control_unit.status().tra.0);
        let _ = n;
        mima.perform_microcycle();
    }
}

#[test]
fn device_io_read_yields_stub_word() {
    // Loading from the device region puts the stub word into ACC; the
    // machine keeps running through the framed transfer:
    let mut mima = machine_for(b"LDV 201326592\nHLT");
    run_to_halt(&mut mima);
    assert_eq!(mima.arithmetic_unit.acc, Word(42));
    assert!(!mima.control_unit.status().tra.0);
}

#[test]
fn device_io_write_is_dropped() {
    let mut mima = machine_for(b"LDC 9\nSTV 201326592\nHLT");
    run_to_halt(&mut mima);
    assert_eq!(mima.arithmetic_unit.acc, Word(9));
}

#[test]
fn memory_type_classification() {
    assert_eq!(MemoryType::from_address(Word(0)), MemoryType::Linear);
    assert_eq!(MemoryType::from_address(Word(0x0BFFFFFF)), MemoryType::Linear);
    assert_eq!(MemoryType::from_address(Word(0x0C000000)), MemoryType::DeviceIO);
    assert_eq!(MemoryType::from_address(Word(0x0FFFFFFF)), MemoryType::DeviceIO);
}

#[test]
fn memory_loaders() {
    let mut unit = MemoryUnit::new();
    // Untouched memory reads as the halt word:
    assert_eq!(unit.read_word(12345), Word(0xF0000000));
    unit.load_raw_code(&vec![Word(1), Word(2), Word(3)]);
    assert_eq!(unit.read_word(0), Word(1));
    assert_eq!(unit.read_word(2), Word(3));
    assert_eq!(unit.read_word(3), Word(0xF0000000));
    unit.load_instructions(&vec![
        mimasim::types::Instruction::LoadConstant(Word(7)),
        mimasim::types::Instruction::Halt,
    ]);
    assert_eq!(unit.read_word(0), Word(0x60000007));
    assert_eq!(unit.read_word(1), Word(0xF0000000));
    let prefix = unit.linear_memory();
    assert_eq!(prefix[0], Word(0x60000007));
}

#[test]
fn load_code_overlays_device_addresses() {
    let (object_code, _) = ObjectCode::assemble(b"JMP dev.entry\nHLT").unwrap();
    let mut unit = MemoryUnit::new();
    unit.load_code(&object_code).unwrap();
    // The default resolver binds the symbol to the placeholder region;
    // the low 28 bits are overlaid onto the emitted word:
    assert_eq!(unit.read_word(0), Word(0x7FFFFFFF));
    assert_eq!(unit.read_word(1), Word(0xF0000000));
}

#[test]
fn fetch_descriptor_shape() {
    let mut mima = machine_for(b"HLT");
    let descriptor = mima.perform_microcycle().unwrap();
    // Microcycle 1 moves IAR to SAR and X and signals a memory read:
    let xfer = descriptor.bus_xfer.unwrap();
    assert_eq!(xfer.source(), Register::Iar);
    assert!(xfer.destinations().contains(Register::Sar));
    assert!(xfer.destinations().contains(Register::X));
    assert!(!xfer.destinations().contains(Register::Acc));
    assert_eq!(xfer.source_bitmask(), Word(0xFFFFFFFF));
    assert!(!xfer.is_acc_dependent());
    assert!(descriptor.alu_op.is_none());
    assert!(descriptor.mem_access.is_some());
}

#[test]
fn record_and_fold_one_cycle() {
    let mut mima = machine_for(b"LDC 0x42\nHLT");
    let mut summaries = Vec::new();
    while let Some(summary) = MicrocycleSummary::record_microcycle(&mut mima) {
        summaries.push(summary);
    }
    assert_eq!(summaries.len(), 24);
    assert_eq!(summaries[0].microcycle, 1);
    assert!(summaries[0].is_bus_active());
    assert!(summaries[0].instruction.is_none());
    // The first instruction cycle folds to the end-to-end diff:
    let cycle = CycleSummary::from_microcycle_summaries(&summaries[0], &summaries[11]);
    assert_eq!(cycle.acc.initial_value(), Word(0));
    assert_eq!(cycle.acc.final_value(), Word(0x42));
    assert_eq!(cycle.iar.initial_value(), Word(0));
    assert_eq!(cycle.iar.final_value(), Word(1));
    assert_eq!(cycle.instruction, mimasim::types::Instruction::LoadConstant(Word(0x42)));
    assert!(cycle.run.final_value().0);
    // The second cycle completes the halt:
    let halt_cycle = CycleSummary::from_microcycle_summaries(&summaries[12], &summaries[23]);
    assert_eq!(halt_cycle.instruction, mimasim::types::Instruction::Halt);
    assert!(!halt_cycle.run.final_value().0);
}

#[test]
fn acc_dependent_transfer_is_inactive_on_positive_acc() {
    // In "LDC 1; JMN skip; ...", the JMN transfer at its microcycle 6
    // is gated off because ACC's sign bit is clear:
    let mut mima = machine_for(b"LDC 1\nJMN skip\nLDC 0\nskip: HLT");
    let mut summaries = Vec::new();
    while let Some(summary) = MicrocycleSummary::record_microcycle(&mut mima) {
        summaries.push(summary);
    }
    // Steps 13..24 execute JMN; its microcycle 6 is step 18 (index 17):
    let jmn_step = &summaries[17];
    assert_eq!(jmn_step.microcycle, 6);
    assert!(jmn_step.descriptor.bus_xfer.as_ref().unwrap().is_acc_dependent());
    assert!(!jmn_step.is_bus_active());
}

#[test]
fn value_diffs() {
    let stasis: Value<Word> = Value::Stasis(Word(3));
    assert_eq!(stasis.initial_value(), Word(3));
    assert_eq!(stasis.final_value(), Word(3));
    let change: Value<Flag> = Value::Change(Flag(false), Flag(true));
    assert_eq!(change.initial_value(), Flag(false));
    assert_eq!(change.final_value(), Flag(true));
}

#[test]
fn fresh_units() {
    let mima = Mima::new();
    assert_eq!(mima.arithmetic_unit.acc, Word(0));
    assert_eq!(mima.arithmetic_unit.one, Word(1));
    assert!(mima.arithmetic_unit.work().is_none());
    assert_eq!(mima.control_unit.microcycle(), 1);
    assert!(mima.control_unit.instruction().is_none());
    assert!(mima.control_unit.is_running());
    assert!(!mima.control_unit.status().tra.0);
    assert!(mima.memory_unit.work().is_none());
    assert_eq!(mima.memory_unit.sar, Word(0));
}
