use chipy::cpu::alu::{
    add_immediate, add_registers, digits_of, shift_left, shift_right, sub_registers,
    subn_registers,
};
use chipy::cpu::cpu::Cpu;
use chipy::cpu::state::{CpuError, WaitLatch};
use chipy::input::{Input, InputEvent, Key, Mappings};

fn machine(program: &[u8]) -> Cpu {
    Cpu::new(&program.to_vec()).expect("the program fits")
}

fn run(cpu: &mut Cpu, steps: usize) {
    for _ in 0..steps {
        assert_eq!(cpu.execute_next_instruction(), Ok(()));
    }
}

const FONT: [u8; 80] = [
    0xF0, 0x90, 0x90, 0x90, 0xF0, 0x20, 0x60, 0x20, 0x20, 0x70, 0xF0, 0x10, 0xF0, 0x80, 0xF0, 0xF0,
    0x10, 0xF0, 0x10, 0xF0, 0x90, 0x90, 0xF0, 0x10, 0x10, 0xF0, 0x80, 0xF0, 0x10, 0xF0, 0xF0, 0x80,
    0xF0, 0x90, 0xF0, 0xF0, 0x10, 0x20, 0x40, 0x40, 0xF0, 0x90, 0xF0, 0x90, 0xF0, 0xF0, 0x90, 0xF0,
    0x10, 0xF0, 0xF0, 0x90, 0xF0, 0x90, 0x90, 0xE0, 0x90, 0xE0, 0x90, 0xE0, 0xF0, 0x80, 0x80, 0x80,
    0xF0, 0xE0, 0x90, 0x90, 0x90, 0xE0, 0xF0, 0x80, 0xF0, 0x80, 0xF0, 0xF0, 0x80, 0xF0, 0x80, 0x80,
];

#[test]
fn new_machine_is_at_rest() {
    let cpu = machine(&[]);
    assert_eq!(cpu.pc(), 0x200);
    assert_eq!(cpu.index(), 0);
    assert_eq!(cpu.stack_depth(), 0);
    assert_eq!(cpu.delay_timer(), 0);
    assert_eq!(cpu.sound_timer(), 0);
    assert!(!cpu.is_waiting_for_key());
    assert!(!cpu.get_sound_state());
    for x in 0..16 {
        assert_eq!(cpu.register(x), 0);
    }
    for y in 0..32 {
        for x in 0..64 {
            assert!(!cpu.pixel(x, y));
        }
    }
    assert!(cpu.keypad.keys.iter().all(|held| !held));
    assert!(!cpu.keypad.wait && !cpu.keypad.new_key);
}

#[test]
fn new_machine_holds_font_then_zeros_then_program() {
    let cpu = machine(&[0x12, 0x34, 0x56]);
    for (address, byte) in FONT.iter().enumerate() {
        assert_eq!(cpu.memory(address), *byte, "address {:#05X}", address);
    }
    for address in 80..0x200 {
        assert_eq!(cpu.memory(address), 0);
    }
    assert_eq!(cpu.memory(0x200), 0x12);
    assert_eq!(cpu.memory(0x201), 0x34);
    assert_eq!(cpu.memory(0x202), 0x56);
    for address in 0x203..0x1000 {
        assert_eq!(cpu.memory(address), 0);
    }
}

#[test]
fn font_glyph_of_c_is_the_standard_one() {
    let cpu = machine(&[]);
    let glyph: Vec<u8> = (60..65).map(|a| cpu.memory(a)).collect();
    assert_eq!(glyph, vec![0xF0, 0x80, 0x80, 0x80, 0xF0]);
}

#[test]
fn largest_program_fits() {
    let rom = vec![0xAB; 3584];
    let cpu = Cpu::new(&rom).expect("3584 bytes fit");
    assert_eq!(cpu.memory(0x200), 0xAB);
    assert_eq!(cpu.memory(0xFFF), 0xAB);
    assert_eq!(cpu.memory(0x1FF), 0x00);
}

#[test]
fn oversize_program_is_refused() {
    let rom = vec![0u8; 3585];
    assert!(matches!(Cpu::new(&rom), Err(CpuError::RomTooLarge)));
    let rom = vec![0u8; 10_000];
    assert!(matches!(Cpu::new(&rom), Err(CpuError::RomTooLarge)));
}

#[test]
fn add_program_without_carry() {
    let mut cpu = machine(&[0x60, 0x0A, 0x61, 0x05, 0x80, 0x14]);
    run(&mut cpu, 3);
    assert_eq!(cpu.register(0), 0x0F);
    assert_eq!(cpu.register(1), 0x05);
    assert_eq!(cpu.register(0xF), 0);
    assert_eq!(cpu.pc(), 0x206);
}

#[test]
fn add_program_with_carry() {
    let mut cpu = machine(&[0x60, 0xFF, 0x61, 0x01, 0x80, 0x14]);
    run(&mut cpu, 3);
    assert_eq!(cpu.register(0), 0x00);
    assert_eq!(cpu.register(0xF), 1);
}

#[test]
fn store_registers_up_to_v0_writes_only_v0() {
    let mut cpu = machine(&[0xA2, 0x22, 0xF0, 0x55]);
    run(&mut cpu, 2);
    assert_eq!(cpu.index(), 0x222);
    assert_eq!(cpu.memory(0x222), 0);
    let mut cpu = machine(&[0x60, 0x7B, 0x61, 0x55, 0xA2, 0x22, 0xF0, 0x55]);
    run(&mut cpu, 4);
    assert_eq!(cpu.index(), 0x222);
    assert_eq!(cpu.memory(0x221), 0);
    assert_eq!(cpu.memory(0x222), 0x7B);
    assert_eq!(cpu.memory(0x223), 0);
    for address in 0x208..0x1000 {
        if address != 0x222 {
            assert_eq!(cpu.memory(address), 0, "address {:#05X}", address);
        }
    }
}

#[test]
fn return_continues_after_the_call() {
    // 0x200: call 0x206; 0x202: load V1; 0x206: load V0; 0x208: return.
    let mut cpu = machine(&[0x22, 0x06, 0x61, 0x22, 0x00, 0x00, 0x60, 0x11, 0x00, 0xEE]);
    run(&mut cpu, 1);
    assert_eq!(cpu.pc(), 0x206);
    assert_eq!(cpu.stack_depth(), 1);
    run(&mut cpu, 1);
    assert_eq!(cpu.register(0), 0x11);
    run(&mut cpu, 1);
    assert_eq!(cpu.pc(), 0x202);
    assert_eq!(cpu.stack_depth(), 0);
    run(&mut cpu, 1);
    assert_eq!(cpu.register(1), 0x22);
}

#[test]
fn nested_calls_return_in_reverse_order() {
    // 0x200: call 0x204; 0x202: jump 0x202; 0x204: call 0x208; 0x206: ret; 0x208: ret.
    let mut cpu = machine(&[0x22, 0x04, 0x12, 0x02, 0x22, 0x08, 0x00, 0xEE, 0x00, 0xEE]);
    run(&mut cpu, 2);
    assert_eq!((cpu.pc(), cpu.stack_depth()), (0x208, 2));
    run(&mut cpu, 1);
    assert_eq!((cpu.pc(), cpu.stack_depth()), (0x206, 1));
    run(&mut cpu, 1);
    assert_eq!((cpu.pc(), cpu.stack_depth()), (0x202, 0));
}

#[test]
fn call_stack_has_no_depth_limit() {
    // 0x200: call 0x200, over and over.
    let mut cpu = machine(&[0x22, 0x00]);
    run(&mut cpu, 1000);
    assert_eq!(cpu.stack_depth(), 1000);
    assert_eq!(cpu.pc(), 0x200);
}

#[test]
fn return_with_empty_stack_fails() {
    let mut cpu = machine(&[0x00, 0xEE]);
    assert_eq!(cpu.execute_next_instruction(), Err(CpuError::StackUnderflow));
    assert_eq!(cpu.pc(), 0x202);
    assert_eq!(cpu.stack_depth(), 0);
}

#[test]
fn invalid_word_fails_with_the_word() {
    let mut cpu = machine(&[0x00, 0x00]);
    assert_eq!(cpu.execute_next_instruction(), Err(CpuError::UnhandledOpcode(0x0000)));
    assert_eq!(cpu.pc(), 0x202);
    let mut cpu = machine(&[0x51, 0x23]);
    assert_eq!(cpu.execute_next_instruction(), Err(CpuError::UnhandledOpcode(0x5123)));
    let mut cpu = machine(&[0xF1, 0xFF]);
    assert_eq!(cpu.execute_next_instruction(), Err(CpuError::UnhandledOpcode(0xF1FF)));
}

#[test]
fn offset_jump_is_not_implemented() {
    let mut cpu = machine(&[0x60, 0x04, 0xB3, 0x00]);
    run(&mut cpu, 1);
    assert_eq!(cpu.execute_next_instruction(), Err(CpuError::UnhandledOpcode(0xB300)));
    assert_eq!(cpu.pc(), 0x204);
    assert_eq!(cpu.register(0), 4);
}

#[test]
fn fetch_beyond_memory_fails_and_changes_nothing() {
    // Jump to the last byte of memory: the word there is cut in half.
    let mut cpu = machine(&[0x1F, 0xFF]);
    run(&mut cpu, 1);
    assert_eq!(cpu.pc(), 0xFFF);
    assert_eq!(cpu.execute_next_instruction(), Err(CpuError::OutOfBounds));
    assert_eq!(cpu.pc(), 0xFFF);
    assert_eq!(cpu.execute_next_instruction(), Err(CpuError::OutOfBounds));
    assert_eq!(cpu.pc(), 0xFFF);
}

#[test]
fn running_off_the_end_of_memory_fails() {
    // Jump to the last word, which is a load; the step after it has nothing to fetch.
    let mut rom = vec![0u8; 3584];
    rom[0] = 0x1F;
    rom[1] = 0xFE;
    rom[3582] = 0x63;
    rom[3583] = 0x09;
    let mut cpu = Cpu::new(&rom).unwrap();
    run(&mut cpu, 2);
    assert_eq!(cpu.register(3), 9);
    assert_eq!(cpu.pc(), 0x1000);
    assert_eq!(cpu.execute_next_instruction(), Err(CpuError::OutOfBounds));
    assert_eq!(cpu.pc(), 0x1000);
}

#[test]
fn jump_sets_the_counter() {
    let mut cpu = machine(&[0x1A, 0xBC]);
    run(&mut cpu, 1);
    assert_eq!(cpu.pc(), 0xABC);
}

#[test]
fn skip_if_equal_immediate() {
    let mut cpu = machine(&[0x63, 0x42, 0x33, 0x42, 0x00, 0x00, 0x33, 0x43]);
    run(&mut cpu, 2);
    assert_eq!(cpu.pc(), 0x206);
    run(&mut cpu, 1);
    assert_eq!(cpu.pc(), 0x208);
}

#[test]
fn skip_if_not_equal_immediate() {
    let mut cpu = machine(&[0x63, 0x42, 0x43, 0x41, 0x00, 0x00, 0x43, 0x42]);
    run(&mut cpu, 2);
    assert_eq!(cpu.pc(), 0x206);
    run(&mut cpu, 1);
    assert_eq!(cpu.pc(), 0x208);
}

#[test]
fn skip_if_registers_equal() {
    let mut cpu = machine(&[0x61, 0x07, 0x62, 0x07, 0x51, 0x20, 0x00, 0x00, 0x51, 0x30]);
    run(&mut cpu, 3);
    assert_eq!(cpu.pc(), 0x208);
    run(&mut cpu, 1);
    assert_eq!(cpu.pc(), 0x20A);
}

#[test]
fn skip_if_registers_differ() {
    let mut cpu = machine(&[0x61, 0x07, 0x91, 0x20, 0x00, 0x00, 0x91, 0x10]);
    run(&mut cpu, 2);
    assert_eq!(cpu.pc(), 0x206);
    run(&mut cpu, 1);
    assert_eq!(cpu.pc(), 0x208);
}

#[test]
fn load_and_add_immediate() {
    let mut cpu = machine(&[0x6A, 0xF0, 0x7A, 0x0F, 0x7A, 0x02]);
    run(&mut cpu, 2);
    assert_eq!(cpu.register(0xA), 0xFF);
    run(&mut cpu, 1);
    assert_eq!(cpu.register(0xA), 0x01);
    assert_eq!(cpu.register(0xF), 0, "adding an immediate sets no flag");
}

#[test]
fn load_register_and_logic() {
    let mut cpu = machine(&[
        0x60, 0b1100_1010, 0x61, 0b1010_0110, 0x82, 0x00, 0x82, 0x11, 0x83, 0x00, 0x83, 0x12, 0x84,
        0x00, 0x84, 0x13,
    ]);
    run(&mut cpu, 8);
    assert_eq!(cpu.register(2), 0b1110_1110);
    assert_eq!(cpu.register(3), 0b1000_0010);
    assert_eq!(cpu.register(4), 0b0110_1100);
    assert_eq!(cpu.register(0), 0b1100_1010);
    assert_eq!(cpu.register(1), 0b1010_0110);
}

#[test]
fn add_formula() {
    assert_eq!(add_registers(0x0A, 0x05), (0x0F, 0));
    assert_eq!(add_registers(0xFF, 0x01), (0x00, 1));
    assert_eq!(add_registers(200, 100), (44, 1));
    assert_eq!(add_registers(255, 255), (254, 1));
    assert_eq!(add_registers(255, 0), (255, 0));
    assert_eq!(add_immediate(250, 10), 4);
    assert_eq!(add_immediate(1, 2), 3);
}

#[test]
fn add_holds_for_all_bytes() {
    for vx in 0..=255u16 {
        for vy in 0..=255u16 {
            let (value, flag) = add_registers(vx as u8, vy as u8);
            assert_eq!(value as u16, (vx + vy) % 256);
            assert_eq!(flag == 1, vx + vy > 255);
            assert!(flag <= 1);
        }
    }
}

#[test]
fn sub_formula() {
    assert_eq!(sub_registers(10, 3), (7, 1));
    assert_eq!(sub_registers(3, 10), (249, 0));
    assert_eq!(sub_registers(7, 7), (0, 1));
    assert_eq!(sub_registers(0, 255), (1, 0));
}

#[test]
fn subn_formula() {
    assert_eq!(subn_registers(3, 10), (7, 0));
    assert_eq!(subn_registers(10, 3), (249, 1));
    assert_eq!(subn_registers(7, 7), (0, 1));
    assert_eq!(subn_registers(255, 0), (1, 1));
}

#[test]
fn sub_and_subn_hold_for_all_bytes() {
    for vx in 0..=255i32 {
        for vy in 0..=255i32 {
            let (value, flag) = sub_registers(vx as u8, vy as u8);
            assert_eq!(value as i32, (vx - vy).rem_euclid(256));
            assert_eq!(flag, if vy > vx { 0 } else { 1 });
            let (value, flag) = subn_registers(vx as u8, vy as u8);
            assert_eq!(value as i32, (vy - vx).rem_euclid(256));
            assert_eq!(flag, if vy > vx { 0 } else { 1 });
        }
    }
}

#[test]
fn shift_formulas() {
    assert_eq!(shift_right(0b0000_0101), (0b0000_0010, 1));
    assert_eq!(shift_right(0b1000_0000), (0b0100_0000, 0));
    assert_eq!(shift_left(0b1000_0001), (0b0000_0010, 1));
    assert_eq!(shift_left(0b0100_0000), (0b1000_0000, 0));
    for vx in 0..=255u8 {
        assert_eq!(shift_right(vx), (vx >> 1, vx & 1));
        assert_eq!(shift_left(vx), (vx << 1, vx >> 7));
    }
}

#[test]
fn decimal_digits_formula() {
    assert_eq!(digits_of(0), (0, 0, 0));
    assert_eq!(digits_of(7), (0, 0, 7));
    assert_eq!(digits_of(42), (0, 4, 2));
    assert_eq!(digits_of(123), (1, 2, 3));
    assert_eq!(digits_of(255), (2, 5, 5));
    for v in 0..=255u8 {
        assert_eq!(digits_of(v), (v / 100, (v / 10) % 10, v % 10));
    }
}

#[test]
fn sub_instruction_sets_flag_then_result() {
    let mut cpu = machine(&[0x60, 0x03, 0x61, 0x0A, 0x80, 0x15]);
    run(&mut cpu, 3);
    assert_eq!(cpu.register(0), 249);
    assert_eq!(cpu.register(0xF), 0);
    let mut cpu = machine(&[0x60, 0x0A, 0x61, 0x03, 0x80, 0x15]);
    run(&mut cpu, 3);
    assert_eq!(cpu.register(0), 7);
    assert_eq!(cpu.register(0xF), 1);
}

#[test]
fn subn_instruction_follows_the_same_flag_rule() {
    let mut cpu = machine(&[0x60, 0x03, 0x61, 0x0A, 0x80, 0x17]);
    run(&mut cpu, 3);
    assert_eq!(cpu.register(0), 7);
    assert_eq!(cpu.register(0xF), 0);
    let mut cpu = machine(&[0x60, 0x0A, 0x61, 0x03, 0x80, 0x17]);
    run(&mut cpu, 3);
    assert_eq!(cpu.register(0), 249);
    assert_eq!(cpu.register(0xF), 1);
}

#[test]
fn sub_reads_the_flag_register_before_writing_it() {
    // V0 = 5, VF = 3, V0 -= VF.
    let mut cpu = machine(&[0x60, 0x05, 0x6F, 0x03, 0x80, 0xF5]);
    run(&mut cpu, 3);
    assert_eq!(cpu.register(0), 2);
    assert_eq!(cpu.register(0xF), 1);
}

#[test]
fn result_stays_when_the_flag_register_is_the_target() {
    // VF = 200, V1 = 100, VF += V1: the sum is what VF holds.
    let mut cpu = machine(&[0x6F, 0xC8, 0x61, 0x64, 0x8F, 0x14]);
    run(&mut cpu, 3);
    assert_eq!(cpu.register(0xF), 44);
    // VF = 0x81, VF <<= 1.
    let mut cpu = machine(&[0x6F, 0x81, 0x8F, 0x0E]);
    run(&mut cpu, 2);
    assert_eq!(cpu.register(0xF), 0x02);
}

#[test]
fn shift_instructions() {
    let mut cpu = machine(&[0x62, 0x05, 0x82, 0x06, 0x63, 0x81, 0x83, 0x0E]);
    run(&mut cpu, 2);
    assert_eq!(cpu.register(2), 2);
    assert_eq!(cpu.register(0xF), 1);
    run(&mut cpu, 2);
    assert_eq!(cpu.register(3), 2);
    assert_eq!(cpu.register(0xF), 1);
    let mut cpu = machine(&[0x62, 0x04, 0x82, 0x06, 0x63, 0x41, 0x83, 0x0E]);
    run(&mut cpu, 2);
    assert_eq!((cpu.register(2), cpu.register(0xF)), (2, 0));
    run(&mut cpu, 2);
    assert_eq!((cpu.register(3), cpu.register(0xF)), (0x82, 0));
}

#[test]
fn set_index_and_add_to_index() {
    let mut cpu = machine(&[0xA1, 0x23, 0x60, 0x10, 0xF0, 0x1E]);
    run(&mut cpu, 3);
    assert_eq!(cpu.index(), 0x133);
    assert_eq!(cpu.register(0xF), 0);
}

#[test]
fn add_to_index_wraps_at_sixteen_bits() {
    // I = 0xFFF, then add 0xFF to it 0xF1 times with a loop: 0xFFF + 0xF1 * 0xFF = 0x1000E.
    // V0 = 0xFF, V1 = 0xF1 (counter), V2 = 1.
    let mut cpu = machine(&[
        0xAF, 0xFF, 0x60, 0xFF, 0x61, 0xF1, 0x62, 0x01, // setup
        0xF0, 0x1E, // 0x208: I += V0
        0x81, 0x25, // 0x20A: V1 -= V2
        0x31, 0x00, // 0x20C: skip if V1 == 0
        0x12, 0x08, // 0x20E: jump 0x208
    ]);
    run(&mut cpu, 4);
    for round in 0..0xF1u32 {
        run(&mut cpu, 1);
        assert_eq!(cpu.index() as u32, (0xFFF + (round + 1) * 0xFF) % 0x1_0000);
        run(&mut cpu, 2);
        if round + 1 < 0xF1 {
            run(&mut cpu, 1);
        }
    }
    assert_eq!(cpu.index(), 0x000E);
    assert_eq!(cpu.pc(), 0x210);
    assert_eq!(cpu.register(0xF), 1, "the flag is the one that the last subtraction left");
    assert_eq!(cpu.register(0), 0xFF);
}

#[test]
fn set_index_to_glyph() {
    let mut cpu = machine(&[0x64, 0x0C, 0xF4, 0x29, 0x64, 0xFF, 0xF4, 0x29]);
    run(&mut cpu, 2);
    assert_eq!(cpu.index(), 60);
    run(&mut cpu, 2);
    assert_eq!(cpu.index(), 1275);
}

#[test]
fn decimal_store() {
    let mut cpu = machine(&[0x65, 0xFE, 0xA3, 0x00, 0xF5, 0x33]);
    run(&mut cpu, 3);
    assert_eq!(cpu.memory(0x2FF), 0);
    assert_eq!(cpu.memory(0x300), 2);
    assert_eq!(cpu.memory(0x301), 5);
    assert_eq!(cpu.memory(0x302), 4);
    assert_eq!(cpu.memory(0x303), 0);
    assert_eq!(cpu.index(), 0x300);
}

#[test]
fn decimal_store_at_the_last_three_bytes() {
    let mut cpu = machine(&[0x65, 0x7B, 0xAF, 0xFD, 0xF5, 0x33]);
    run(&mut cpu, 3);
    assert_eq!((cpu.memory(0xFFD), cpu.memory(0xFFE), cpu.memory(0xFFF)), (1, 2, 3));
}

#[test]
fn decimal_store_beyond_memory_fails() {
    let mut cpu = machine(&[0x65, 0x7B, 0xAF, 0xFE, 0xF5, 0x33]);
    run(&mut cpu, 2);
    assert_eq!(cpu.execute_next_instruction(), Err(CpuError::OutOfBounds));
    assert_eq!((cpu.memory(0xFFE), cpu.memory(0xFFF)), (0, 0));
    assert_eq!(cpu.pc(), 0x206);
}

#[test]
fn store_and_load_register_block() {
    let mut cpu = machine(&[
        0x60, 0x11, 0x61, 0x22, 0x62, 0x33, 0x63, 0x44, 0xA4, 0x00, 0xF2, 0x55, // store V0..V2
        0x60, 0x00, 0x61, 0x00, 0x62, 0x00, 0x63, 0x00, 0xF3, 0x65, // load V0..V3
    ]);
    run(&mut cpu, 6);
    assert_eq!(
        (cpu.memory(0x400), cpu.memory(0x401), cpu.memory(0x402), cpu.memory(0x403)),
        (0x11, 0x22, 0x33, 0x00)
    );
    assert_eq!(cpu.index(), 0x400);
    run(&mut cpu, 5);
    assert_eq!(
        (cpu.register(0), cpu.register(1), cpu.register(2), cpu.register(3)),
        (0x11, 0x22, 0x33, 0x00)
    );
    assert_eq!(cpu.index(), 0x400);
}

#[test]
fn load_all_registers_from_the_font() {
    let mut cpu = machine(&[0xA0, 0x00, 0xFF, 0x65]);
    run(&mut cpu, 2);
    for x in 0..16 {
        assert_eq!(cpu.register(x), FONT[x]);
    }
}

#[test]
fn register_block_beyond_memory_fails() {
    let mut cpu = machine(&[0x60, 0x11, 0x61, 0x22, 0xAF, 0xFF, 0xF1, 0x55]);
    run(&mut cpu, 3);
    assert_eq!(cpu.execute_next_instruction(), Err(CpuError::OutOfBounds));
    assert_eq!(cpu.memory(0xFFF), 0, "nothing is written when the block does not fit");
    let mut cpu = machine(&[0xAF, 0xFF, 0xF1, 0x65]);
    run(&mut cpu, 1);
    assert_eq!(cpu.execute_next_instruction(), Err(CpuError::OutOfBounds));
    let mut cpu = machine(&[0x60, 0x11, 0xAF, 0xFF, 0xF0, 0x55]);
    run(&mut cpu, 3);
    assert_eq!(cpu.memory(0xFFF), 0x11);
}

#[test]
fn timers_are_set_read_and_ticked() {
    let mut cpu = machine(&[0x60, 0x03, 0xF0, 0x15, 0x61, 0x02, 0xF1, 0x18, 0xF2, 0x07]);
    run(&mut cpu, 4);
    assert_eq!((cpu.delay_timer(), cpu.sound_timer()), (3, 2));
    assert!(cpu.get_sound_state());
    cpu.tick_timers();
    assert_eq!((cpu.delay_timer(), cpu.sound_timer()), (2, 1));
    assert!(cpu.get_sound_state());
    run(&mut cpu, 1);
    assert_eq!(cpu.register(2), 2);
    cpu.tick_timers();
    assert_eq!((cpu.delay_timer(), cpu.sound_timer()), (1, 0));
    assert!(!cpu.get_sound_state());
    cpu.tick_timers();
    assert_eq!((cpu.delay_timer(), cpu.sound_timer()), (0, 0));
}

#[test]
fn timers_stay_at_zero() {
    let mut cpu = machine(&[0x60, 0x05, 0xF0, 0x15]);
    run(&mut cpu, 2);
    for tick in 1..=600u32 {
        cpu.tick_timers();
        assert_eq!(cpu.delay_timer() as u32, 5u32.saturating_sub(tick));
        assert_eq!(cpu.sound_timer(), 0);
    }
    assert_eq!(cpu.pc(), 0x204);
    assert_eq!(cpu.register(0), 5);
}

#[test]
fn wait_for_key_holds_the_counter() {
    let mut cpu = machine(&[0xF3, 0x0A, 0x64, 0x01]);
    for _ in 0..50 {
        run(&mut cpu, 1);
        assert_eq!(cpu.pc(), 0x200);
        assert!(cpu.is_waiting_for_key());
        assert!(cpu.keypad.wait);
        assert!(!cpu.keypad.new_key);
    }
    assert_eq!(cpu.register(3), 0);
}

#[test]
fn wait_for_key_takes_the_key() {
    let mut cpu = machine(&[0xF3, 0x0A, 0x64, 0x01]);
    run(&mut cpu, 3);
    cpu.keypad.key_down(0xB);
    run(&mut cpu, 1);
    assert_eq!(cpu.register(3), 0xB);
    assert_eq!(cpu.pc(), 0x202);
    assert!(!cpu.is_waiting_for_key());
    run(&mut cpu, 1);
    assert_eq!(cpu.register(4), 1);
}

#[test]
fn wait_for_key_ignores_keys_held_before() {
    let mut cpu = machine(&[0xF3, 0x0A]);
    cpu.keypad.key_down(0x4);
    run(&mut cpu, 2);
    assert_eq!(cpu.pc(), 0x200);
    assert_eq!(cpu.register(3), 0);
    cpu.keypad.key_up(0x4);
    run(&mut cpu, 1);
    assert_eq!(cpu.pc(), 0x200);
    cpu.keypad.key_down(0x4);
    run(&mut cpu, 1);
    assert_eq!(cpu.pc(), 0x202);
    assert_eq!(cpu.register(3), 0x4);
}

#[test]
fn skip_if_key_pressed() {
    let mut cpu = machine(&[0x60, 0x07, 0xE0, 0x9E, 0xE0, 0x9E, 0x00, 0x00, 0xE0, 0xA1, 0xE0, 0xA1]);
    run(&mut cpu, 2);
    assert_eq!(cpu.pc(), 0x204);
    cpu.keypad.key_down(7);
    run(&mut cpu, 1);
    assert_eq!(cpu.pc(), 0x208);
    run(&mut cpu, 1);
    assert_eq!(cpu.pc(), 0x20A);
    cpu.keypad.key_up(7);
    run(&mut cpu, 1);
    assert_eq!(cpu.pc(), 0x20E);
}

#[test]
fn key_test_of_a_key_that_is_not_there_fails() {
    let mut cpu = machine(&[0x60, 0x10, 0xE0, 0x9E]);
    run(&mut cpu, 1);
    assert_eq!(cpu.execute_next_instruction(), Err(CpuError::InvalidKey));
    assert_eq!(cpu.pc(), 0x204);
    let mut cpu = machine(&[0x60, 0xFF, 0xE0, 0xA1]);
    run(&mut cpu, 1);
    assert_eq!(cpu.execute_next_instruction(), Err(CpuError::InvalidKey));
    let mut cpu = machine(&[0x60, 0x0F, 0xE0, 0xA1]);
    run(&mut cpu, 2);
    assert_eq!(cpu.pc(), 0x206);
}

#[test]
fn random_is_masked_by_the_immediate() {
    let mut cpu = machine(&[0xC0, 0x0F, 0xC1, 0x00, 0xC2, 0xFF]);
    assert!(cpu.draws_random());
    assert_eq!(cpu.execute_with(0xAB), Ok(()));
    assert_eq!(cpu.register(0), 0x0B);
    assert_eq!(cpu.execute_with(0xFF), Ok(()));
    assert_eq!(cpu.register(1), 0x00);
    assert_eq!(cpu.execute_with(0x5A), Ok(()));
    assert_eq!(cpu.register(2), 0x5A);
    assert!(!cpu.draws_random());
}

#[test]
fn random_from_the_generator_is_masked_too() {
    for _ in 0..200 {
        let mut cpu = machine(&[0xC0, 0x0F, 0xC1, 0x00, 0xC2, 0xF0]);
        run(&mut cpu, 3);
        assert!(cpu.register(0) <= 0x0F);
        assert_eq!(cpu.register(1), 0);
        assert_eq!(cpu.register(2) & 0x0F, 0);
        assert_eq!(cpu.pc(), 0x206);
    }
}

#[test]
fn random_from_the_generator_varies() {
    let mut seen = [false; 256];
    for _ in 0..4000 {
        let mut cpu = machine(&[0xC0, 0xFF]);
        run(&mut cpu, 1);
        seen[cpu.register(0) as usize] = true;
    }
    assert!(seen.iter().filter(|hit| **hit).count() > 128);
}

#[test]
fn other_instructions_ignore_the_random_byte() {
    let program = [0x60, 0x0A, 0x61, 0x05, 0x80, 0x14, 0xA2, 0x22, 0xF0, 0x33];
    let mut one = machine(&program);
    let mut other = machine(&program);
    for step in 0..5u8 {
        assert!(!one.draws_random());
        assert_eq!(one.execute_with(0x00), other.execute_with(step.wrapping_mul(77)));
    }
    for x in 0..16 {
        assert_eq!(one.register(x), other.register(x));
    }
    assert_eq!(one.memory(0x224), 5);
    assert_eq!(other.memory(0x224), 5);
}

#[test]
fn draw_glyph_and_collide() {
    // I = glyph of 0, draw at (V0, V1) = (0, 0) with 5 rows, twice.
    let mut cpu = machine(&[0xA0, 0x00, 0xD0, 0x15, 0xD0, 0x15]);
    run(&mut cpu, 2);
    assert_eq!(cpu.register(0xF), 0);
    let glyph = [0xF0u8, 0x90, 0x90, 0x90, 0xF0];
    for y in 0..32 {
        for x in 0..64 {
            let lit = y < 5 && x < 8 && glyph[y] & (0x80 >> x) != 0;
            assert_eq!(cpu.pixel(x, y), lit, "pixel ({}, {})", x, y);
        }
    }
    run(&mut cpu, 1);
    assert_eq!(cpu.register(0xF), 1);
    for y in 0..32 {
        for x in 0..64 {
            assert!(!cpu.pixel(x, y));
        }
    }
}

#[test]
fn draw_position_wraps_and_sprite_is_clipped() {
    // V0 = 64 + 60, V1 = 32 + 30: drawn at (60, 30); only 4 columns and 2 rows fit.
    let mut cpu = machine(&[0x60, 0x7C, 0x61, 0x3E, 0xA2, 0x08, 0xD0, 0x13, 0xFF, 0xFF, 0xFF]);
    run(&mut cpu, 4);
    assert_eq!(cpu.register(0xF), 0);
    for y in 0..32 {
        for x in 0..64 {
            assert_eq!(cpu.pixel(x, y), x >= 60 && y >= 30, "pixel ({}, {})", x, y);
        }
    }
}

#[test]
fn draw_of_no_rows_fails() {
    let mut cpu = machine(&[0xA0, 0x00, 0xD0, 0x10]);
    run(&mut cpu, 1);
    assert_eq!(cpu.execute_next_instruction(), Err(CpuError::InvalidSpriteSize));
    assert_eq!(cpu.pc(), 0x204);
}

#[test]
fn draw_beyond_memory_fails() {
    let mut cpu = machine(&[0xAF, 0xFE, 0xD0, 0x13]);
    run(&mut cpu, 1);
    assert_eq!(cpu.execute_next_instruction(), Err(CpuError::OutOfBounds));
    assert_eq!(cpu.register(0xF), 0);
    let mut cpu = machine(&[0xAF, 0xFE, 0xD0, 0x12]);
    run(&mut cpu, 2);
}

#[test]
fn clear_screen_turns_every_pixel_off() {
    let mut cpu = machine(&[0xA0, 0x00, 0xD0, 0x15, 0x00, 0xE0]);
    run(&mut cpu, 2);
    assert!(cpu.pixel(0, 0));
    run(&mut cpu, 1);
    for y in 0..32 {
        for x in 0..64 {
            assert!(!cpu.pixel(x, y));
        }
    }
    assert_eq!(cpu.pc(), 0x206);
}

#[test]
fn frame_is_handed_out_once_per_change() {
    let mut cpu = machine(&[0xA0, 0x05, 0xD0, 0x11]);
    assert_eq!(cpu.draw(640, 320), Some(vec![]));
    assert_eq!(cpu.draw(640, 320), None);
    run(&mut cpu, 2);
    let frame = cpu.draw(640, 320).expect("a sprite was drawn");
    // Row 0x20 of glyph 1: one pixel in column 2.
    assert_eq!(frame.len(), 1);
    assert_eq!((frame[0].x, frame[0].y, frame[0].width, frame[0].height), (20, 0, 10, 10));
    assert_eq!(cpu.draw(640, 320), None);
}

#[test]
fn failed_step_keeps_registers_and_memory() {
    let mut cpu = machine(&[0x60, 0x55, 0xA3, 0x00, 0xB0, 0x00]);
    run(&mut cpu, 2);
    assert!(cpu.execute_next_instruction().is_err());
    assert_eq!(cpu.register(0), 0x55);
    assert_eq!(cpu.index(), 0x300);
    assert_eq!(cpu.stack_depth(), 0);
    assert_eq!(cpu.pc(), 0x206);
}

#[test]
fn wait_latch_goes_round() {
    let mut cpu = machine(&[0xF3, 0x0A, 0xF4, 0x0A]);
    assert_eq!(cpu.wait_latch(), WaitLatch::NotWaiting);
    run(&mut cpu, 1);
    assert_eq!(cpu.wait_latch(), WaitLatch::WaitingNoKey);
    run(&mut cpu, 5);
    assert_eq!(cpu.wait_latch(), WaitLatch::WaitingNoKey);
    cpu.keypad_mut().key_down(0xE);
    assert_eq!(cpu.wait_latch(), WaitLatch::WaitingKeyReceived(0xE));
    run(&mut cpu, 1);
    assert_eq!(cpu.wait_latch(), WaitLatch::NotWaiting);
    assert_eq!(cpu.register(3), 0xE);
    // The key is still held, but the next wait wants a new one.
    run(&mut cpu, 3);
    assert_eq!(cpu.wait_latch(), WaitLatch::WaitingNoKey);
    assert_eq!(cpu.pc(), 0x202);
    assert_eq!(cpu.register(4), 0);
}

#[test]
fn keyboard_reaches_the_machine_through_a_mapping() {
    let mut cpu = machine(&[0xF0, 0x0A, 0xE0, 0x9E, 0x00, 0x00, 0xE0, 0xA1]);
    let input = Input::new(Mappings::Default);
    run(&mut cpu, 2);
    input.handle_keys(cpu.keypad_mut(), InputEvent::KeyDown { keycode: Some(Key::A) });
    run(&mut cpu, 1);
    assert_eq!(cpu.register(0), 7);
    run(&mut cpu, 1);
    assert_eq!(cpu.pc(), 0x206);
    input.handle_keys(&mut cpu.keypad, InputEvent::KeyUp { keycode: Some(Key::A) });
    run(&mut cpu, 1);
    assert_eq!(cpu.pc(), 0x20A);
}

#[test]
fn display_is_due_after_a_draw() {
    let mut cpu = machine(&[0xA0, 0x00, 0xD0, 0x11, 0x00, 0xE0]);
    assert!(cpu.is_display_updated());
    assert!(cpu.draw(64, 32).is_some());
    assert!(!cpu.is_display_updated());
    run(&mut cpu, 1);
    assert!(!cpu.is_display_updated());
    run(&mut cpu, 1);
    assert!(cpu.is_display_updated());
    assert_eq!(cpu.draw(64, 32).map(|frame| frame.len()), Some(4));
    run(&mut cpu, 1);
    assert!(!cpu.is_display_updated(), "clearing does not mark the display");
}
