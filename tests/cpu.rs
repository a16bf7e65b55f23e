use chip8::cartridge::Cartridge;
use chip8::cpu::{Cpu, CpuError};

fn run(cpu: &mut Cpu, program: &[u8]) {
    cpu.load_cartridge(Cartridge::new(program)).unwrap();
    cpu.execute_cycle().unwrap();
}

#[test]
fn opcode_jp() {
    let mut cpu = Cpu::new();
    cpu.load_cartridge(Cartridge::new(&[0x1A, 0x2A])).unwrap();
    cpu.execute_cycle().unwrap();
    assert_eq!(cpu.pc(), 0x0A2A, "the program counter is updated");
}

#[test]
fn opcode_call() {
    let mut cpu = Cpu::new();
    cpu.load_cartridge(Cartridge::new(&[0x2A, 0xBC])).unwrap();
    cpu.execute_cycle().unwrap();
    assert_eq!(
        cpu.pc(),
        0x0ABC,
        "the program counter is updated to the new address"
    );
    assert_eq!(cpu.sp(), 1, "the stack pointer is incremented");
    assert_eq!(cpu.stack_entry(0), 0x202, "the stack stores the previous address");
}

#[test]
fn opcode_se_vx_byte() {
    let mut cpu = Cpu::new();
    cpu.set_register(1, 0xFE); // kk

    // vx == kk -> 0x31FE
    cpu.load_cartridge(Cartridge::new(&[0x31, 0xFE])).unwrap();
    cpu.execute_cycle().unwrap();
    assert_eq!(cpu.pc(), 0x204, "the stack pointer skips");

    cpu.reset();

    // vx != kk -> 0x31FA
    cpu.load_cartridge(Cartridge::new(&[0x31, 0xFA])).unwrap();
    cpu.execute_cycle().unwrap();
    assert_eq!(cpu.pc(), 0x202, "the stack pointer is incremented");
}

#[test]
fn opcode_sne_vx_byte() {
    let mut cpu = Cpu::new();
    cpu.set_register(1, 0xFE);

    // vx == kk
    cpu.load_cartridge(Cartridge::new(&[0x41, 0xFE])).unwrap();
    cpu.execute_cycle().unwrap();
    assert_eq!(cpu.pc(), 0x202, "the stack pointer is incremented");

    cpu.reset();

    // vx != kk
    cpu.load_cartridge(Cartridge::new(&[0x41, 0xFA])).unwrap();
    cpu.execute_cycle().unwrap();
    assert_eq!(cpu.pc(), 0x204, "the stack pointer skips");
}

#[test]
fn opcode_se_vx_vy() {
    let mut cpu = Cpu::new();
    cpu.set_register(2, 3);
    cpu.set_register(3, 3);

    // vx == vy
    cpu.load_cartridge(Cartridge::new(&[0x52, 0x30])).unwrap();
    cpu.execute_cycle().unwrap();
    assert_eq!(cpu.pc(), 0x204, "the stack pointer skips");

    cpu.reset();
    cpu.set_register(1, 1);
    cpu.set_register(3, 3);

    // vx != vy
    cpu.load_cartridge(Cartridge::new(&[0x51, 0x30])).unwrap();
    cpu.execute_cycle().unwrap();
    assert_eq!(cpu.pc(), 0x202, "the stack pointer is incremented");
}

#[test]
fn opcode_sne_vx_vy() {
    let mut cpu = Cpu::new();
    cpu.set_register(2, 3);
    cpu.set_register(3, 3);

    // vx == vy
    cpu.load_cartridge(Cartridge::new(&[0x92, 0x30])).unwrap();
    cpu.execute_cycle().unwrap();
    assert_eq!(cpu.pc(), 0x202, "the stack pointer is incremented");

    cpu.reset();
    cpu.set_register(1, 1);
    cpu.set_register(3, 3);

    // vx != vy
    cpu.load_cartridge(Cartridge::new(&[0x91, 0x30])).unwrap();
    cpu.execute_cycle().unwrap();
    assert_eq!(cpu.pc(), 0x204, "the stack pointer skips");
}

#[test]
fn opcode_add_vx_kkk() {
    let mut cpu = Cpu::new();
    cpu.set_register(1, 3);
    cpu.load_cartridge(Cartridge::new(&[0x71, 0x01])).unwrap();
    cpu.execute_cycle().unwrap();
    assert_eq!(cpu.register(1), 4, "Vx was incremented by one");
}

#[test]
fn opcode_ld_vx_vy() {
    let mut cpu = Cpu::new();
    cpu.set_register(1, 3);
    cpu.set_register(0, 0);
    cpu.load_cartridge(Cartridge::new(&[0x80, 0x10])).unwrap();
    cpu.execute_cycle().unwrap();
    assert_eq!(cpu.register(0), 3, "Vx was loaded with vy");
}

#[test]
fn opcode_or_vx_vy() {
    let mut cpu = Cpu::new();
    cpu.set_register(2, 0b01101100);
    cpu.set_register(3, 0b11001110);
    cpu.load_cartridge(Cartridge::new(&[0x82, 0x31])).unwrap();
    cpu.execute_cycle().unwrap();
    assert_eq!(cpu.register(2), 0b11101110, "Vx was loaded with vx OR vy");
}

#[test]
fn opcode_and_vx_vy() {
    let mut cpu = Cpu::new();
    cpu.set_register(2, 0b01101100);
    cpu.set_register(3, 0b11001110);
    cpu.load_cartridge(Cartridge::new(&[0x82, 0x32])).unwrap();
    cpu.execute_cycle().unwrap();
    assert_eq!(cpu.register(2), 0b01001100, "Vx was loaded with vx AND vy");
}

#[test]
fn opcode_xor_vx_vy() {
    let mut cpu = Cpu::new();
    cpu.set_register(2, 0b01101100);
    cpu.set_register(3, 0b11001110);
    cpu.load_cartridge(Cartridge::new(&[0x82, 0x33])).unwrap();
    cpu.execute_cycle().unwrap();
    assert_eq!(cpu.register(2), 0b10100010, "Vx was loaded with vx XOR vy");
}

#[test]
fn opcode_add_vx_vy() {
    let mut cpu = Cpu::new();
    cpu.set_register(1, 10);
    cpu.set_register(2, 100);

    cpu.load_cartridge(Cartridge::new(&[0x81, 0x24])).unwrap();
    cpu.execute_cycle().unwrap();
    assert_eq!(cpu.register(1), 110, "Vx was loaded with vx + vy");
    assert_eq!(cpu.register(0xF), 0, "no overflow occured");

    cpu.reset();
    cpu.set_register(1, 10);
    cpu.set_register(3, 250);

    cpu.load_cartridge(Cartridge::new(&[0x81, 0x34])).unwrap();
    cpu.execute_cycle().unwrap();
    assert_eq!(cpu.register(1), 4, "Vx was loaded with vx + vy");
    assert_eq!(cpu.register(0xF), 1, "overflow occured");
}

#[test]
fn opcode_ld_i_vx() {
    let mut cpu = Cpu::new();
    cpu.set_register(0, 5);
    cpu.set_register(1, 4);
    cpu.set_register(2, 3);
    cpu.set_register(3, 2);
    cpu.set_i(0x300);
    // load v0 - v2 into memory at i
    cpu.load_cartridge(Cartridge::new(&[0xF2, 0x55])).unwrap();
    cpu.execute_cycle().unwrap();
    let i = cpu.i() as usize;
    assert_eq!(cpu.memory_at(i), 5, "V0 was loaded into memory at i");
    assert_eq!(cpu.memory_at(i + 1), 4, "V1 was loaded into memory at i + 1");
    assert_eq!(cpu.memory_at(i + 2), 3, "V2 was loaded into memory at i + 2");
    assert_eq!(cpu.memory_at(i + 3), 0, "i + 3 was not loaded");
}

#[test]
fn opcode_ld_b_vx() {
    let mut cpu = Cpu::new();
    cpu.set_i(0x300);
    cpu.set_register(2, 234);
    cpu.load_cartridge(Cartridge::new(&[0xF2, 0x33])).unwrap();
    cpu.execute_cycle().unwrap();
    let i = cpu.i() as usize;
    assert_eq!(cpu.memory_at(i), 2, "hundreds");
    assert_eq!(cpu.memory_at(i + 1), 3, "tens");
    assert_eq!(cpu.memory_at(i + 2), 4, "digits");
}

#[test]
fn opcode_ld_vx_i() {
    let mut cpu = Cpu::new();
    cpu.set_i(0x300);
    let i = cpu.i() as usize;
    cpu.set_memory(i, 5);
    cpu.set_memory(i + 1, 4);
    cpu.set_memory(i + 2, 3);
    cpu.set_memory(i + 3, 2);
    // load v0 - v2 from memory at i
    cpu.process_opcode(0xF265).unwrap();
    assert_eq!(cpu.register(0), 5, "V0 was loaded from memory at i");
    assert_eq!(cpu.register(1), 4, "V1 was loaded from memory at i + 1");
    assert_eq!(cpu.register(2), 3, "V2 was loaded from memory at i + 2");
    assert_eq!(cpu.register(3), 0, "i + 3 was not loaded");
}

#[test]
fn opcode_ret() {
    let mut cpu = Cpu::new();

    // jump to 0x0ABC
    cpu.load_cartridge(Cartridge::new(&[0x2A, 0xBC])).unwrap();

    cpu.execute_cycle().unwrap();
    assert_eq!(
        cpu.pc(),
        0xABC,
        "the program counter is updated to the new address"
    );
    // return
    cpu.set_memory(0xABC, 0x00);
    cpu.set_memory(0xABC + 1, 0xEE);
    cpu.execute_cycle().unwrap();
    assert_eq!(cpu.sp(), 0, "the stack pointer is decremented");
}

#[test]
fn opcode_ld_i_addr() {
    let mut cpu = Cpu::new();

    cpu.load_cartridge(Cartridge::new(&[0x61, 0xAA])).unwrap();
    cpu.execute_cycle().unwrap();
    assert_eq!(cpu.register(1), 0xAA, "V1 is set");
    assert_eq!(cpu.pc(), 0x202, "the program counter is advanced two bytes");

    cpu.reset();
    cpu.load_cartridge(Cartridge::new(&[0x62, 0x1A])).unwrap();
    cpu.execute_cycle().unwrap();
    assert_eq!(cpu.register(2), 0x1A, "V2 is set");
    assert_eq!(cpu.pc(), 0x202, "the program counter is advanced two bytes");

    cpu.reset();
    cpu.load_cartridge(Cartridge::new(&[0x6A, 0x15])).unwrap();
    cpu.execute_cycle().unwrap();
    assert_eq!(cpu.register(10), 0x15, "V10 is set");
    assert_eq!(cpu.pc(), 0x202, "the program counter is advanced two bytes");
}

#[test]
fn opcode_axxx() {
    let mut cpu = Cpu::new();
    cpu.load_cartridge(Cartridge::new(&[0xAF, 0xAF])).unwrap();
    cpu.execute_cycle().unwrap();

    assert_eq!(cpu.i(), 0x0FAF, "the 'i' register is updated");
    assert_eq!(cpu.pc(), 0x202, "the program counter is advanced two bytes");
}

#[test]
fn call_then_ret_returns_after_the_call() {
    let mut cpu = Cpu::new();
    cpu.load_cartridge(Cartridge::new(&[0x23, 0x00])).unwrap();
    cpu.set_memory(0x300, 0x00);
    cpu.set_memory(0x301, 0xEE);
    cpu.execute_cycle().unwrap();
    assert_eq!(cpu.pc(), 0x300);
    cpu.execute_cycle().unwrap();
    assert_eq!(cpu.pc(), 0x202);
    assert_eq!(cpu.sp(), 0);
}

#[test]
fn sub_sets_flag_when_no_borrow() {
    let mut cpu = Cpu::new();
    cpu.set_register(1, 10);
    cpu.set_register(2, 3);
    run(&mut cpu, &[0x81, 0x25]);
    assert_eq!(cpu.register(1), 7);
    assert_eq!(cpu.register(0xF), 1);

    cpu.reset();
    cpu.set_register(1, 3);
    cpu.set_register(2, 10);
    run(&mut cpu, &[0x81, 0x25]);
    assert_eq!(cpu.register(1), 249);
    assert_eq!(cpu.register(0xF), 0);

    cpu.reset();
    cpu.set_register(1, 5);
    cpu.set_register(2, 5);
    run(&mut cpu, &[0x81, 0x25]);
    assert_eq!(cpu.register(1), 0);
    assert_eq!(cpu.register(0xF), 0);
}

#[test]
fn subn_subtracts_the_other_way() {
    let mut cpu = Cpu::new();
    cpu.set_register(1, 3);
    cpu.set_register(2, 10);
    run(&mut cpu, &[0x81, 0x27]);
    assert_eq!(cpu.register(1), 7);
    assert_eq!(cpu.register(0xF), 1);

    cpu.reset();
    cpu.set_register(1, 10);
    cpu.set_register(2, 3);
    run(&mut cpu, &[0x81, 0x27]);
    assert_eq!(cpu.register(1), 249);
    assert_eq!(cpu.register(0xF), 0);
}

#[test]
fn shifts_put_the_lost_bit_in_the_flag() {
    let mut cpu = Cpu::new();
    cpu.set_register(1, 0b1000_0101);
    run(&mut cpu, &[0x81, 0x06]);
    assert_eq!(cpu.register(1), 0b0100_0010);
    assert_eq!(cpu.register(0xF), 1);

    cpu.reset();
    cpu.set_register(1, 0b1000_0101);
    run(&mut cpu, &[0x81, 0x0E]);
    assert_eq!(cpu.register(1), 0b0000_1010);
    assert_eq!(cpu.register(0xF), 1);

    cpu.reset();
    cpu.set_register(1, 0b0100_0000);
    run(&mut cpu, &[0x81, 0x0E]);
    assert_eq!(cpu.register(1), 0b1000_0000);
    assert_eq!(cpu.register(0xF), 0);
}

#[test]
fn add_byte_wraps_without_flag() {
    let mut cpu = Cpu::new();
    cpu.set_register(1, 250);
    cpu.set_register(0xF, 7);
    run(&mut cpu, &[0x71, 0x0A]);
    assert_eq!(cpu.register(1), 4);
    assert_eq!(cpu.register(0xF), 7);
}

#[test]
fn jump_with_offset_adds_v0() {
    let mut cpu = Cpu::new();
    cpu.set_register(0, 4);
    run(&mut cpu, &[0xB3, 0x00]);
    assert_eq!(cpu.pc(), 0x304);
}

#[test]
fn random_byte_is_masked() {
    let mut cpu = Cpu::new();
    // the first draw of the seed-1 source is 0xfffa2edc
    run(&mut cpu, &[0xC1, 0xFF]);
    assert_eq!(cpu.register(1), 0xDC);

    cpu.reset();
    run(&mut cpu, &[0xC1, 0x0F]);
    assert_eq!(cpu.register(1), 0x0C);

    cpu.reset();
    run(&mut cpu, &[0xC1, 0x00]);
    assert_eq!(cpu.register(1), 0);
}

#[test]
fn glyph_address_and_bytes() {
    let mut cpu = Cpu::new();
    cpu.set_register(3, 0xA);
    run(&mut cpu, &[0xF3, 0x29]);
    assert_eq!(cpu.i(), 50);
    assert_eq!(cpu.memory_at(50), 0xF0);
    assert_eq!(cpu.memory_at(54), 0x90);
    assert_eq!(cpu.memory_at(0), 0xF0);
    assert_eq!(cpu.memory_at(79), 0x80);
    assert_eq!(cpu.memory_at(80), 0);
}

#[test]
fn add_to_index() {
    let mut cpu = Cpu::new();
    cpu.set_i(0x300);
    cpu.set_register(2, 0x10);
    run(&mut cpu, &[0xF2, 0x1E]);
    assert_eq!(cpu.i(), 0x310);
}

#[test]
fn timers_count_down_once_per_cycle() {
    let mut cpu = Cpu::new();
    cpu.set_register(1, 2);
    // LD DT, V1; LD ST, V1; LD V2, DT; LD V3, DT
    cpu.load_cartridge(Cartridge::new(&[0xF1, 0x15, 0xF1, 0x18, 0xF2, 0x07, 0xF3, 0x07]))
        .unwrap();
    let r = cpu.execute_cycle().unwrap();
    assert!(!r.get_should_beep());
    let r = cpu.execute_cycle().unwrap();
    assert!(r.get_should_beep());
    let r = cpu.execute_cycle().unwrap();
    // the delay timer was set two cycles ago: 2 - 1 - 1
    assert_eq!(cpu.register(2), 0);
    assert!(r.get_should_beep());
    let r = cpu.execute_cycle().unwrap();
    assert_eq!(cpu.register(3), 0);
    assert!(!r.get_should_beep());
}

#[test]
fn skip_if_key_pressed_or_not() {
    let mut cpu = Cpu::new();
    cpu.set_register(1, 8);
    cpu.keypad_down("a");
    run(&mut cpu, &[0xE1, 0x9E]);
    assert_eq!(cpu.pc(), 0x204);

    cpu.reset();
    cpu.set_register(1, 8);
    run(&mut cpu, &[0xE1, 0xA1]);
    assert_eq!(cpu.pc(), 0x202);

    cpu.keypad_up("a");
    cpu.reset();
    cpu.set_register(1, 8);
    run(&mut cpu, &[0xE1, 0xA1]);
    assert_eq!(cpu.pc(), 0x204);

    cpu.reset();
    cpu.set_register(1, 8);
    run(&mut cpu, &[0xE1, 0x9E]);
    assert_eq!(cpu.pc(), 0x202);
}

#[test]
fn wait_for_key_blocks_until_pressed() {
    let mut cpu = Cpu::new();
    cpu.set_register(4, 0x77);
    cpu.load_cartridge(Cartridge::new(&[0xF4, 0x0A])).unwrap();
    for _ in 0..3 {
        cpu.execute_cycle().unwrap();
        assert_eq!(cpu.pc(), 0x200);
        assert_eq!(cpu.register(4), 0x77);
    }
    cpu.keypad_down("w");
    cpu.execute_cycle().unwrap();
    assert_eq!(cpu.pc(), 0x202);
    assert_eq!(cpu.register(4), 5);
}

#[test]
fn reset_keeps_key_state() {
    let mut cpu = Cpu::new();
    cpu.keypad_down("4");
    cpu.reset();
    cpu.load_cartridge(Cartridge::new(&[0xF0, 0x0A])).unwrap();
    cpu.execute_cycle().unwrap();
    assert_eq!(cpu.register(0), 3);
}

#[test]
fn reset_restores_memory_and_registers() {
    let mut cpu = Cpu::new();
    cpu.load_cartridge(Cartridge::new(&[0x61, 0x05, 0xA3, 0x00])).unwrap();
    cpu.execute_cycle().unwrap();
    cpu.execute_cycle().unwrap();
    cpu.reset();
    assert_eq!(cpu.pc(), 0x200);
    assert_eq!(cpu.i(), 0);
    assert_eq!(cpu.register(1), 0);
    assert_eq!(cpu.memory_at(0x200), 0);
    assert_eq!(cpu.memory_at(0), 0xF0);
}

#[test]
fn draw_then_clear_screen() {
    let mut cpu = Cpu::new();
    // LD F, V0 (glyph 0); DRW V0, V0, 5; DRW V0, V0, 5; CLS
    cpu.load_cartridge(Cartridge::new(&[0xF0, 0x29, 0xD0, 0x05, 0xD0, 0x05, 0x00, 0xE0]))
        .unwrap();
    cpu.execute_cycle().unwrap();
    let r = cpu.execute_cycle().unwrap();
    let screen = r.get_display_state();
    assert_eq!(screen.len(), 2048);
    assert_eq!(&screen[0..4], &[1, 1, 1, 1]);
    assert_eq!(&screen[64..68], &[1, 0, 0, 1]);
    assert_eq!(cpu.register(0xF), 0);
    let r = cpu.execute_cycle().unwrap();
    assert_eq!(cpu.register(0xF), 1);
    assert!(r.get_display_state().iter().all(|&c| c == 0));
    cpu.execute_cycle().unwrap();
    cpu.reset();
    cpu.load_cartridge(Cartridge::new(&[0xF0, 0x29, 0xD0, 0x05, 0x00, 0xE0])).unwrap();
    cpu.execute_cycle().unwrap();
    cpu.execute_cycle().unwrap();
    let r = cpu.execute_cycle().unwrap();
    assert!(r.get_display_state().iter().all(|&c| c == 0));
}

#[test]
fn store_then_load_registers_round_trip() {
    let mut cpu = Cpu::new();
    cpu.set_i(0x300);
    cpu.set_register(0, 5);
    cpu.set_register(1, 4);
    cpu.set_register(2, 3);
    // LD [I], V2; LD V0, 0; LD V1, 0; LD V2, 0; LD V2, [I]
    cpu.load_cartridge(Cartridge::new(&[
        0xF2, 0x55, 0x60, 0x00, 0x61, 0x00, 0x62, 0x00, 0xF2, 0x65,
    ]))
    .unwrap();
    for _ in 0..5 {
        cpu.execute_cycle().unwrap();
    }
    assert_eq!(cpu.register(0), 5);
    assert_eq!(cpu.register(1), 4);
    assert_eq!(cpu.register(2), 3);
    assert_eq!(cpu.register(3), 0);
    assert_eq!(cpu.memory_at(0x303), 0);
}

#[test]
fn unknown_instruction_is_an_error() {
    let mut cpu = Cpu::new();
    cpu.load_cartridge(Cartridge::new(&[0x01, 0x23])).unwrap();
    assert_eq!(
        cpu.execute_cycle().err(),
        Some(CpuError::UnimplementedInstruction(0x0123))
    );
    assert_eq!(cpu.pc(), 0x200);
    assert_eq!(
        cpu.process_opcode(0x8008),
        Err(CpuError::UnimplementedInstruction(0x8008))
    );
}

#[test]
fn return_with_empty_stack_is_an_error() {
    let mut cpu = Cpu::new();
    cpu.load_cartridge(Cartridge::new(&[0x00, 0xEE])).unwrap();
    assert_eq!(cpu.execute_cycle().err(), Some(CpuError::StackUnderflow));
    assert_eq!(cpu.pc(), 0x200);
    assert_eq!(cpu.sp(), 0);
}

#[test]
fn call_with_full_stack_is_an_error() {
    let mut cpu = Cpu::new();
    // CALL 0x200, forever
    cpu.load_cartridge(Cartridge::new(&[0x22, 0x00])).unwrap();
    for k in 0..16 {
        cpu.execute_cycle().unwrap();
        assert_eq!(cpu.sp(), k + 1);
    }
    assert_eq!(cpu.execute_cycle().err(), Some(CpuError::StackOverflow));
    assert_eq!(cpu.sp(), 16);
}

#[test]
fn oversized_cartridge_is_refused() {
    let mut cpu = Cpu::new();
    let big = vec![0xAAu8; 4096 - 0x200 + 1];
    assert_eq!(
        cpu.load_cartridge(Cartridge::new(&big)),
        Err(CpuError::InsufficientMemory)
    );
    assert_eq!(cpu.memory_at(0x200), 0);
    let fits = vec![0xAAu8; 4096 - 0x200];
    assert_eq!(cpu.load_cartridge(Cartridge::new(&fits)), Ok(()));
    assert_eq!(cpu.memory_at(4095), 0xAA);
}

#[test]
fn memory_ranges_past_the_end_are_errors() {
    let mut cpu = Cpu::new();
    cpu.set_i(4094);
    assert_eq!(cpu.process_opcode(0xF033), Err(CpuError::InsufficientMemory));
    assert_eq!(cpu.process_opcode(0xF255), Err(CpuError::InsufficientMemory));
    assert_eq!(cpu.process_opcode(0xF265), Err(CpuError::InsufficientMemory));
    assert_eq!(cpu.process_opcode(0xD003), Err(CpuError::InsufficientMemory));
    assert_eq!(cpu.pc(), 0x200);
    assert_eq!(cpu.process_opcode(0xD002), Ok(()));
}

#[test]
fn fetch_past_the_end_is_an_error() {
    let mut cpu = Cpu::new();
    cpu.load_cartridge(Cartridge::new(&[0x1F, 0xFF])).unwrap();
    cpu.execute_cycle().unwrap();
    assert_eq!(cpu.pc(), 0xFFF);
    assert_eq!(cpu.execute_cycle().err(), Some(CpuError::InsufficientMemory));
}
