use sm83_core::cpu::CPU;
use sm83_core::fault::{Fault, Snapshot, State};
use sm83_core::registers::{Flag, Register};

fn machine_with_program(origin: u16, program: &[u8]) -> CPU {
    let mut cpu = CPU::new();
    let mut addr = origin;
    for byte in program {
        cpu.write(addr, *byte).unwrap();
        addr = addr.wrapping_add(1);
    }
    cpu.set_pc(origin);
    cpu
}

#[test]
fn power_on_state() {
    let cpu = CPU::new();
    assert_eq!(cpu.get_pc(), 0);
    assert_eq!(cpu.get_sp(), 0);
    assert_eq!(cpu.state(), State::Running);
    assert!(cpu.verify());
    assert_eq!(cpu.get_16(&Register::HL), 0);
    assert_eq!(cpu.read(0xC000), Ok(0));
}

#[test]
fn fetch_reads_at_pc_and_advances() {
    let mut cpu = machine_with_program(0xC000, &[0x12, 0x34]);
    assert_eq!(cpu.fetch_n8(), Ok(0x12));
    assert_eq!(cpu.get_pc(), 0xC001);
    assert_eq!(cpu.fetch_n8(), Ok(0x34));
    assert_eq!(cpu.get_pc(), 0xC002);
}

#[test]
fn fetch_wraps_the_program_counter() {
    let mut cpu = CPU::new();
    cpu.write(0xFFFF, 0x5A).unwrap();
    cpu.set_pc(0xFFFF);
    assert_eq!(cpu.fetch_n8(), Ok(0x5A));
    assert_eq!(cpu.get_pc(), 0x0000);
}

#[test]
fn fetch_in_external_ram_faults_and_keeps_pc() {
    let mut cpu = CPU::new();
    cpu.set_pc(0xA000);
    assert_eq!(cpu.fetch_n8(), Err(Fault::UnimplementedRegion { address: 0xA000 }));
    assert_eq!(cpu.get_pc(), 0xA000);
}

#[test]
fn fetch_n16_is_low_byte_first() {
    let mut cpu = machine_with_program(0xC000, &[0x34, 0x12]);
    assert_eq!(cpu.fetch_n16(), Ok(0x1234));
    assert_eq!(cpu.get_pc(), 0xC002);
}

#[test]
fn fetch_n16_faults_as_a_whole() {
    let mut cpu = CPU::new();
    cpu.write(0x9FFF, 0x77).unwrap();
    cpu.set_pc(0x9FFF);
    assert_eq!(cpu.fetch_n16(), Err(Fault::UnimplementedRegion { address: 0xA000 }));
    assert_eq!(cpu.get_pc(), 0x9FFF);
}

#[test]
fn push_writes_high_byte_at_the_higher_address() {
    let mut cpu = CPU::new();
    cpu.set_sp(0xFFFE);
    assert_eq!(cpu.push_stack16(0xBEEF), Ok(()));
    assert_eq!(cpu.read(0xFFFD), Ok(0xBE));
    assert_eq!(cpu.read(0xFFFC), Ok(0xEF));
    assert_eq!(cpu.get_sp(), 0xFFFC);
}

#[test]
fn pop_reads_low_byte_first() {
    let mut cpu = CPU::new();
    cpu.write(0xC100, 0x34).unwrap();
    cpu.write(0xC101, 0x12).unwrap();
    cpu.set_sp(0xC100);
    assert_eq!(cpu.pop_stack16(), Ok(0x1234));
    assert_eq!(cpu.get_sp(), 0xC102);
}

#[test]
fn push_pop_round_trip_for_every_value() {
    let mut cpu = CPU::new();
    for v in 0u32..=0xFFFF {
        let v = v as u16;
        cpu.set_sp(0xFFFE);
        cpu.push_stack16(v).unwrap();
        assert_eq!(cpu.pop_stack16(), Ok(v));
        assert_eq!(cpu.get_sp(), 0xFFFE);
    }
}

#[test]
fn push_pop_round_trip_for_many_stack_pointers() {
    let mut cpu = CPU::new();
    cpu.write(0xFF50, 1).unwrap();
    for s in 0u32..=0xFFFF {
        let s = s as u16;
        let a1 = s.wrapping_sub(1);
        let a2 = s.wrapping_sub(2);
        let plain = |a: u16| !(0xA000..=0xBFFF).contains(&a) && !(0xFEA0..=0xFEFF).contains(&a);
        if !plain(a1) || !plain(a2) {
            continue;
        }
        let v = s ^ 0xA5C3 | 0x0101;
        cpu.set_sp(s);
        cpu.push_stack16(v).unwrap();
        assert_eq!(cpu.get_sp(), a2);
        assert_eq!(cpu.pop_stack16(), Ok(v));
        assert_eq!(cpu.get_sp(), s);
    }
}

#[test]
fn stack_pointer_wraps() {
    let mut cpu = CPU::new();
    cpu.write(0xFF50, 1).unwrap();
    cpu.set_sp(0x0001);
    cpu.push_stack16(0xABCD).unwrap();
    assert_eq!(cpu.get_sp(), 0xFFFF);
    assert_eq!(cpu.read(0x0000), Ok(0xAB));
    assert_eq!(cpu.read(0xFFFF), Ok(0xCD));
    assert_eq!(cpu.pop_stack16(), Ok(0xABCD));
    assert_eq!(cpu.get_sp(), 0x0001);
}

#[test]
fn push_into_external_ram_faults_and_writes_nothing() {
    let mut cpu = CPU::new();
    // The high byte would go to work RAM, the low byte to external RAM.
    cpu.set_sp(0xC001);
    assert_eq!(cpu.push_stack16(0x1234), Err(Fault::UnimplementedRegion { address: 0xBFFF }));
    assert_eq!(cpu.get_sp(), 0xC001);
    assert_eq!(cpu.read(0xC000), Ok(0));
    cpu.set_sp(0xB000);
    assert_eq!(cpu.push_stack16(0x1234), Err(Fault::UnimplementedRegion { address: 0xAFFF }));
    assert_eq!(cpu.get_sp(), 0xB000);
}

#[test]
fn pop_from_external_ram_faults_and_keeps_sp() {
    let mut cpu = CPU::new();
    cpu.set_sp(0x9FFF);
    assert_eq!(cpu.pop_stack16(), Err(Fault::UnimplementedRegion { address: 0xA000 }));
    assert_eq!(cpu.get_sp(), 0x9FFF);
}

#[test]
fn pop_from_the_unusable_region_reads_zero() {
    let mut cpu = CPU::new();
    cpu.set_sp(0xFEB2);
    cpu.push_stack16(0x1234).unwrap();
    assert_eq!(cpu.pop_stack16(), Ok(0));
    assert_eq!(cpu.get_sp(), 0xFEB2);
}

#[test]
fn offset_pc_is_signed_and_wraps() {
    let mut cpu = CPU::new();
    cpu.set_pc(0x0150);
    cpu.offset_pc(5);
    assert_eq!(cpu.get_pc(), 0x0155);
    cpu.offset_pc(-6);
    assert_eq!(cpu.get_pc(), 0x014F);
    cpu.set_pc(0x0000);
    cpu.offset_pc(-1);
    assert_eq!(cpu.get_pc(), 0xFFFF);
    cpu.offset_pc(1);
    assert_eq!(cpu.get_pc(), 0x0000);
    cpu.set_pc(0xFFF0);
    cpu.offset_pc(127);
    assert_eq!(cpu.get_pc(), 0x006F);
    cpu.set_pc(0x0010);
    cpu.offset_pc(-128);
    assert_eq!(cpu.get_pc(), 0xFF90);
}

#[test]
fn operand_six_is_the_byte_behind_hl() {
    let mut cpu = CPU::new();
    cpu.set_16(&Register::HL, 0xC123);
    cpu.write(0xC123, 0x9A).unwrap();
    cpu.set_8(&Register::A, 0x11);
    cpu.set_8(&Register::B, 0x22);
    assert_eq!(cpu.read_r8(6), Ok(0x9A));
    assert_eq!(cpu.read_r8(7), Ok(0x11));
    assert_eq!(cpu.read_r8(0), Ok(0x22));
    assert_eq!(cpu.read_r8(4), Ok(0xC1));
    assert_eq!(cpu.read_r8(5), Ok(0x23));
    assert_eq!(cpu.write_r8(6, 0x55), Ok(()));
    assert_eq!(cpu.read(0xC123), Ok(0x55));
    assert_eq!(cpu.write_r8(1, 0x66), Ok(()));
    assert_eq!(cpu.get_8(&Register::C), 0x66);
    cpu.set_16(&Register::HL, 0xA000);
    assert_eq!(cpu.read_r8(6), Err(Fault::UnimplementedRegion { address: 0xA000 }));
    assert_eq!(cpu.write_r8(6, 1), Err(Fault::UnimplementedRegion { address: 0xA000 }));
}

#[test]
fn snapshot_reports_registers_and_flags() {
    let mut cpu = CPU::new();
    cpu.set_8(&Register::A, 1);
    cpu.set_8(&Register::B, 2);
    cpu.set_8(&Register::C, 3);
    cpu.set_8(&Register::D, 4);
    cpu.set_8(&Register::E, 5);
    cpu.set_8(&Register::H, 6);
    cpu.set_8(&Register::L, 7);
    cpu.set_flag(&Flag::Z, true);
    cpu.set_flag(&Flag::C, true);
    cpu.set_pc(0x1234);
    cpu.set_sp(0xFFFE);
    assert_eq!(
        cpu.snapshot(),
        Snapshot {
            pc: 0x1234,
            sp: 0xFFFE,
            a: 1,
            b: 2,
            c: 3,
            d: 4,
            e: 5,
            h: 6,
            l: 7,
            f: 0x90,
            zero: true,
            subtract: false,
            half_carry: false,
            carry: true,
        }
    );
}

#[test]
fn load_immediate_into_hl() {
    let mut cpu = machine_with_program(0xC000, &[0x21, 0x34, 0x12]);
    assert_eq!(cpu.step(), State::Running);
    assert_eq!(cpu.get_16(&Register::HL), 0x1234);
    assert_eq!(cpu.get_pc(), 0xC003);
}

#[test]
fn xor_a_with_itself() {
    let mut cpu = machine_with_program(0xC000, &[0xAF]);
    cpu.set_8(&Register::A, 0x00);
    cpu.set_8(&Register::F, 0xF0);
    assert_eq!(cpu.step(), State::Running);
    assert_eq!(cpu.get_8(&Register::A), 0x00);
    assert!(cpu.get_flag(&Flag::Z));
    assert!(!cpu.get_flag(&Flag::N));
    assert!(!cpu.get_flag(&Flag::H));
    assert!(!cpu.get_flag(&Flag::C));
    assert_eq!(cpu.get_pc(), 0xC001);
}

#[test]
fn push_bc_through_the_dispatcher() {
    let mut cpu = machine_with_program(0xC000, &[0xC5]);
    cpu.set_sp(0xFFFE);
    cpu.set_16(&Register::BC, 0xBEEF);
    assert_eq!(cpu.step(), State::Running);
    assert_eq!(cpu.read(0xFFFD), Ok(0xBE));
    assert_eq!(cpu.read(0xFFFC), Ok(0xEF));
    assert_eq!(cpu.get_sp(), 0xFFFC);
    assert_eq!(cpu.get_pc(), 0xC001);
}

#[test]
fn relative_jump_counts_from_the_next_instruction() {
    let mut cpu = machine_with_program(0x0150, &[0x18, 0x05]);
    cpu.write(0xFF50, 1).unwrap();
    assert_eq!(cpu.step(), State::Running);
    assert_eq!(cpu.get_pc(), 0x0157);
}

#[test]
fn unknown_opcode_halts_with_a_snapshot() {
    let mut cpu = machine_with_program(0xC010, &[0xFF]);
    cpu.set_8(&Register::A, 0x42);
    cpu.set_sp(0xD000);
    let state = cpu.step();
    match state {
        State::Halted(Fault::UnknownOpcode { opcode, extended, address, snapshot }) => {
            assert_eq!(opcode, 0xFF);
            assert_eq!(extended, None);
            assert_eq!(address, 0xC010);
            assert_eq!(snapshot.a, 0x42);
            assert_eq!(snapshot.sp, 0xD000);
            assert_eq!(snapshot.pc, 0xC010);
            assert_eq!(snapshot, cpu.snapshot());
        },
        other => panic!("{:?}", other),
    }
    assert_eq!(cpu.state(), state);
    // The machine is as it was before the fetch.
    assert_eq!(cpu.get_pc(), 0xC010);
    assert_eq!(cpu.snapshot().a, 0x42);
}

#[test]
fn unknown_extended_opcode_reports_both_bytes() {
    let mut cpu = machine_with_program(0xC000, &[0xCB, 0x00]);
    let state = cpu.step();
    match state {
        State::Halted(Fault::UnknownOpcode { opcode, extended, address, snapshot }) => {
            assert_eq!(opcode, 0xCB);
            assert_eq!(extended, Some(0x00));
            assert_eq!(address, 0xC000);
            assert_eq!(snapshot.pc, 0xC000);
            assert_eq!(snapshot, cpu.snapshot());
        },
        other => panic!("{:?}", other),
    }
    assert_eq!(cpu.get_pc(), 0xC000);
}

#[test]
fn unknown_opcode_at_address_zero_wraps_nothing() {
    let mut cpu = CPU::new();
    let mut boot = [0u8; 0x100];
    boot[0] = 0xFF;
    cpu.load_boot_rom(&boot);
    match cpu.step() {
        State::Halted(Fault::UnknownOpcode { opcode, address, .. }) => {
            assert_eq!(opcode, 0xFF);
            assert_eq!(address, 0x0000);
        },
        other => panic!("{:?}", other),
    }
}

#[test]
fn halted_is_terminal() {
    let mut cpu = machine_with_program(0xC000, &[0xFF, 0xAF]);
    let first = cpu.step();
    assert!(matches!(first, State::Halted(_)));
    let before = cpu.snapshot();
    for _ in 0..5 {
        assert_eq!(cpu.step(), first);
        assert_eq!(cpu.snapshot(), before);
    }
    assert_eq!(cpu.boot(100), first);
    assert_eq!(cpu.snapshot(), before);
}

#[test]
fn fetch_fault_halts_the_loop() {
    let mut cpu = CPU::new();
    cpu.set_pc(0xA123);
    assert_eq!(cpu.step(), State::Halted(Fault::UnimplementedRegion { address: 0xA123 }));
    assert_eq!(cpu.get_pc(), 0xA123);
}

#[test]
fn faulting_instruction_leaves_the_machine_as_it_was() {
    // LD (HL), A with HL in external RAM.
    let mut cpu = machine_with_program(0xC000, &[0x77]);
    cpu.set_16(&Register::HL, 0xA010);
    cpu.set_8(&Register::A, 0x99);
    let before = cpu.snapshot();
    assert_eq!(cpu.step(), State::Halted(Fault::UnimplementedRegion { address: 0xA010 }));
    assert_eq!(cpu.snapshot(), before);

    // CALL with the stack in external RAM: the immediate was fetched, and
    // the program counter is put back.
    let mut cpu = machine_with_program(0xC000, &[0xCD, 0x00, 0xD0]);
    cpu.set_sp(0xB000);
    let before = cpu.snapshot();
    assert_eq!(cpu.step(), State::Halted(Fault::UnimplementedRegion { address: 0xAFFF }));
    assert_eq!(cpu.snapshot(), before);

    // LD (a16), A with the address in external RAM.
    let mut cpu = machine_with_program(0xC000, &[0xEA, 0x00, 0xA0]);
    let before = cpu.snapshot();
    assert_eq!(cpu.step(), State::Halted(Fault::UnimplementedRegion { address: 0xA000 }));
    assert_eq!(cpu.snapshot(), before);
}

#[test]
fn boot_runs_until_the_limit() {
    // INC B; JR -3: an endless loop.
    let mut cpu = machine_with_program(0xC000, &[0x04, 0x18, 0xFD]);
    assert_eq!(cpu.boot(0), State::Running);
    assert_eq!(cpu.get_pc(), 0xC000);
    assert_eq!(cpu.boot(7), State::Running);
    assert_eq!(cpu.get_8(&Register::B), 4);
    assert_eq!(cpu.get_pc(), 0xC001);
    assert_eq!(cpu.boot(1), State::Running);
    assert_eq!(cpu.get_pc(), 0xC000);
}

#[test]
fn boot_stops_at_a_fault() {
    // LD B, 3; DEC B; JR NZ, -3; then an opcode without a handler.
    let mut cpu = machine_with_program(0xC000, &[0x06, 0x03, 0x05, 0x20, 0xFD, 0xFF]);
    let state = cpu.boot(1000);
    match state {
        State::Halted(Fault::UnknownOpcode { opcode, address, snapshot, .. }) => {
            assert_eq!(opcode, 0xFF);
            assert_eq!(address, 0xC005);
            assert_eq!(snapshot.b, 0);
            assert!(snapshot.zero);
            assert!(snapshot.subtract);
        },
        other => panic!("{:?}", other),
    }
    assert_eq!(cpu.get_pc(), 0xC005);
}

#[test]
fn boot_rom_prologue_runs() {
    // The first instructions of a boot program: set the stack, clear A,
    // point HL at the top of video RAM, and clear it downwards.
    let program: [u8; 12] = [
        0x31, 0xFE, 0xFF, // LD SP, 0xFFFE
        0xAF, // XOR A
        0x21, 0xFF, 0x9F, // LD HL, 0x9FFF
        0x32, // LD (HL-), A
        0xCB, 0x7C, // BIT 7, H
        0x20, 0xFB, // JR NZ, -5
    ];
    let mut boot = [0u8; 0x100];
    boot[..12].copy_from_slice(&program);
    boot[12] = 0xFF;
    let mut cpu = CPU::new();
    cpu.load_boot_rom(&boot);
    for addr in 0x8000u16..=0x9FFF {
        cpu.write(addr, 0xAA).unwrap();
    }
    let state = cpu.boot(100_000);
    assert!(matches!(state, State::Halted(Fault::UnknownOpcode { opcode: 0xFF, address: 12, .. })));
    assert_eq!(cpu.get_sp(), 0xFFFE);
    assert_eq!(cpu.get_16(&Register::HL), 0x7FFF);
    for addr in 0x8000u16..=0x9FFF {
        assert_eq!(cpu.read(addr), Ok(0));
    }
}

#[test]
fn debug_state_gathers_registers_and_memory() {
    let mut cpu = CPU::new();
    cpu.set_8(&Register::A, 0x12);
    cpu.set_flag(&Flag::H, true);
    cpu.set_sp(0xFFF0);
    cpu.set_pc(0x0056);
    cpu.write(0x8000, 0x11).unwrap();
    cpu.write(0x8800, 0x22).unwrap();
    cpu.write(0x8801, 0x33).unwrap();
    cpu.write(0xFF80, 0x44).unwrap();
    cpu.write(0xFFF0, 0x55).unwrap();
    cpu.write(0xFFFE, 0x66).unwrap();
    cpu.write(0xFFFF, 0x77).unwrap();
    let dump = cpu.debug_state(0x0055, 0xFF);
    assert_eq!(dump.pc, 0x0055);
    assert_eq!(dump.opcode, 0xFF);
    assert_eq!(dump.snapshot, cpu.snapshot());
    assert_eq!(dump.snapshot.pc, 0x0056);
    assert_eq!(dump.video.len(), 0x801);
    assert_eq!(dump.video[0], 0x11);
    assert_eq!(dump.video[0x800], 0x22);
    assert_eq!(dump.video[1..0x800].iter().filter(|b| **b != 0).count(), 0);
    assert_eq!(dump.stack.len(), 0x7F);
    assert_eq!(dump.stack[0], 0x44);
    assert_eq!(dump.stack[0x70], 0x55);
    assert_eq!(dump.stack[0x7E], 0x66);
    assert_eq!(Ok(dump.video), cpu.memory().window(0x8000, 0x8800));
    assert_eq!(Ok(dump.stack), cpu.memory().window(0xFF80, 0xFFFE));
}

#[test]
fn boot_leaves_the_loop_at_a_halt() {
    // LD B, 3; DEC B; JR NZ, -3; then an opcode without a handler. With the
    // largest limit the call returns as soon as the machine halts.
    let mut cpu = machine_with_program(0xC000, &[0x06, 0x03, 0x05, 0x20, 0xFD, 0xFF]);
    let state = cpu.boot(u64::MAX);
    assert!(matches!(state, State::Halted(Fault::UnknownOpcode { opcode: 0xFF, .. })));
    assert_eq!(cpu.state(), state);
    assert_eq!(cpu.get_pc(), 0xC005);
    // A halted machine returns at once, unchanged.
    let before = cpu.snapshot();
    assert_eq!(cpu.boot(u64::MAX), state);
    assert_eq!(cpu.snapshot(), before);
}

#[test]
fn machine_takes_each_image_once() {
    let mut cpu = CPU::new();
    let boot = [0xA1u8; 0x100];
    let cart = [0xB2u8; 0x8000];
    assert!(cpu.load_boot_rom(&boot));
    assert!(cpu.load_cartridge(&cart));
    assert!(!cpu.load_boot_rom(&[0u8; 0x100]));
    assert!(!cpu.load_cartridge(&[0u8; 0x8000]));
    assert_eq!(cpu.read(0x0000), Ok(0xA1));
    assert_eq!(cpu.read(0x0100), Ok(0xB2));
    assert!(cpu.memory().overlay_active());
    cpu.write(0xFF50, 1).unwrap();
    assert_eq!(cpu.read(0x0000), Ok(0xB2));
    assert_eq!(cpu.get_pc(), 0);
    assert_eq!(cpu.state(), State::Running);
}

#[test]
fn accessors_read_the_parts_of_the_machine() {
    let mut cpu = CPU::new();
    cpu.set_16(&Register::DE, 0x1234);
    cpu.set_flags(true, false, true, false);
    cpu.write(0xC000, 0x77).unwrap();
    assert_eq!(cpu.registers().get_8(&Register::D), 0x12);
    assert_eq!(cpu.registers().get_8(&Register::E), 0x34);
    assert_eq!(cpu.get_8(&Register::F), 0xA0);
    assert!(cpu.get_flag(&Flag::Z));
    assert!(!cpu.get_flag(&Flag::C));
    assert_eq!(cpu.memory().read(0xE000), Ok(0x77));
    assert_eq!(cpu.write(0xA000, 1), Err(Fault::UnimplementedRegion { address: 0xA000 }));
    assert!(cpu.verify());
}
