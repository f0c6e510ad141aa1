use chip8::{decode, keycode_to_u8, Cpu, Fault, Input, Instruction, Signals};

fn program(words: &[u16]) -> Cpu {
    let mut cpu = Cpu::new();
    let mut address = 0x200;
    for word in words {
        cpu.store_16(address, *word);
        address += 2;
    }
    cpu
}

#[test]
fn decode_splits_the_word_into_its_fields() {
    let ins = decode(0xD12F);
    assert_eq!(
        ins,
        Instruction { class: 0xD, x: 0x1, y: 0x2, nnn: 0x12F, nn: 0x2F, n: 0xF }
    );
    let ins = decode(0x00E0);
    assert_eq!(ins, Instruction { class: 0, x: 0, y: 0xE, nnn: 0x0E0, nn: 0xE0, n: 0 });
    let ins = decode(0xFFFF);
    assert_eq!(
        ins,
        Instruction { class: 0xF, x: 0xF, y: 0xF, nnn: 0xFFF, nn: 0xFF, n: 0xF }
    );
}

#[test]
fn decode_then_word_gives_the_word_back() {
    for word in [0x0000u16, 0x00E0, 0x1234, 0x8AB4, 0xD12F, 0xF065, 0xFFFF, 0x7FFF, 0x8000] {
        assert_eq!(decode(word).word(), word);
    }
    let mut word: u16 = 0;
    loop {
        let ins = decode(word);
        assert_eq!(ins.word(), word);
        assert_eq!(ins.nnn, (ins.x as u16) * 256 + (ins.y as u16) * 16 + ins.n as u16);
        assert_eq!(ins.nn as usize, ins.y * 16 + ins.n as usize);
        if word == 0xFFFF {
            break;
        }
        word += 1;
    }
}

#[test]
fn word_then_decode_gives_the_fields_back() {
    let ins = Instruction { class: 0x8, x: 0xA, y: 0xB, nnn: 0xAB4, nn: 0xB4, n: 0x4 };
    assert_eq!(ins.word(), 0x8AB4);
    assert_eq!(decode(ins.word()), ins);
}

#[test]
fn word_takes_each_nibble_modulo_sixteen() {
    let ins = Instruction { class: 0x1F, x: 0x23, y: 0x45, nnn: 0, nn: 0, n: 0x67 };
    assert_eq!(ins.word(), 0xF357);
}

#[test]
fn boot_memory_holds_the_glyphs_and_nothing_else() {
    let cpu = Cpu::new();
    let font = Cpu::fontset();
    assert_eq!(font.len(), 80);
    assert_eq!(cpu.mem.len(), 0x1000);
    assert_eq!(&cpu.mem[..80], &font[..]);
    assert!(cpu.mem[80..].iter().all(|&b| b == 0));
    assert_eq!(&font[..5], &[0xF0, 0x90, 0x90, 0x90, 0xF0]);
    assert_eq!(&font[50..55], &[0xF0, 0x90, 0xF0, 0x90, 0x90]);
    assert_eq!(&font[75..], &[0xF0, 0x80, 0xF0, 0x80, 0x80]);
    assert_eq!(cpu.gfx, vec![0u8; 64 * 32]);
    assert_eq!(cpu.regs, [0u8; 16]);
    assert_eq!(cpu.stack, [0u16; 16]);
    assert_eq!(cpu.i, 0);
    assert_eq!(cpu.delay, 0);
    assert_eq!(cpu.sound, 0);
    assert_eq!(cpu.key_pressed, None);
    assert!(cpu.is_valid());
}

#[test]
fn is_valid_tells_a_broken_state() {
    let mut cpu = Cpu::new();
    cpu.sp = 16;
    assert!(cpu.is_valid());
    cpu.sp = 17;
    assert!(!cpu.is_valid());
    let mut cpu = Cpu::new();
    cpu.mem.pop();
    assert!(!cpu.is_valid());
    let mut cpu = Cpu::new();
    cpu.gfx.push(0);
    assert!(!cpu.is_valid());
}

#[test]
fn load_copies_the_program_to_0x200() {
    let mut cpu = Cpu::new();
    let before = cpu.clone();
    assert_eq!(cpu.load(vec![0x12, 0x34, 0x56]), Ok(()));
    assert_eq!(&cpu.mem[0x200..0x203], &[0x12, 0x34, 0x56]);
    assert_eq!(&cpu.mem[..0x200], &before.mem[..0x200]);
    assert!(cpu.mem[0x203..].iter().all(|&b| b == 0));
    assert_eq!(cpu.pc, 0x200);
    assert_eq!(cpu.load_16(0x200), 0x1234);
    assert_eq!(cpu.load_16(0x201), 0x3456);
}

#[test]
fn load_takes_a_program_that_fills_memory_and_refuses_one_byte_more() {
    let mut cpu = Cpu::new();
    assert_eq!(cpu.load(vec![0xAB; 0x1000 - 0x200]), Ok(()));
    assert!(cpu.mem[0x200..].iter().all(|&b| b == 0xAB));
    assert_eq!(cpu.mem.len(), 0x1000);

    let mut cpu = Cpu::new();
    let before = cpu.clone();
    assert_eq!(cpu.load(vec![0xAB; 0x1000 - 0x200 + 1]), Err(Fault::RomTooLarge));
    assert_eq!(cpu, before);

    let mut cpu = Cpu::new();
    assert_eq!(cpu.load(Vec::new()), Ok(()));
    assert_eq!(cpu, before);
}

#[test]
fn store_16_writes_the_high_byte_first() {
    let mut cpu = Cpu::new();
    cpu.store_16(0x300, 0xBEEF);
    assert_eq!(cpu.mem[0x300], 0xBE);
    assert_eq!(cpu.mem[0x301], 0xEF);
    assert_eq!(cpu.load_16(0x300), 0xBEEF);
    cpu.store_16(0xFFE, 0x0102);
    assert_eq!(cpu.load_16(0xFFE), 0x0102);
}

#[test]
fn jump_sets_the_program_counter() {
    let mut cpu = program(&[0x1234]);
    assert_eq!(cpu.step(), Ok(Signals { redraw: false, tone: false }));
    assert_eq!(cpu.pc, 0x234);
}

#[test]
fn call_then_return_comes_back_after_the_call() {
    let mut cpu = program(&[0x2300]);
    cpu.store_16(0x300, 0x00EE);
    cpu.step().unwrap();
    assert_eq!(cpu.pc, 0x300);
    assert_eq!(cpu.sp, 1);
    assert_eq!(cpu.stack[0], 0x202);
    cpu.step().unwrap();
    assert_eq!(cpu.pc, 0x202);
    assert_eq!(cpu.sp, 0);
}

#[test]
fn call_then_return_restores_a_deeper_stack() {
    let mut cpu = program(&[0x2300]);
    cpu.store_16(0x300, 0x00EE);
    cpu.sp = 7;
    cpu.step().unwrap();
    assert_eq!(cpu.sp, 8);
    assert_eq!(cpu.stack[7], 0x202);
    cpu.step().unwrap();
    assert_eq!(cpu.pc, 0x202);
    assert_eq!(cpu.sp, 7);
}

#[test]
fn seventeenth_nested_call_overflows_the_stack() {
    let mut cpu = Cpu::new();
    for k in 0..17u16 {
        cpu.store_16(0x200 + 2 * k, 0x2000 | (0x202 + 2 * k));
    }
    for k in 0..16usize {
        assert_eq!(cpu.step(), Ok(Signals { redraw: false, tone: false }));
        assert_eq!(cpu.sp, k + 1);
    }
    let before = cpu.clone();
    assert_eq!(cpu.step(), Err(Fault::StackOverflow));
    assert_eq!(cpu, before);
    assert_eq!(cpu.sp, 16);
}

#[test]
fn return_on_an_empty_stack_underflows() {
    let mut cpu = program(&[0x00EE]);
    let before = cpu.clone();
    assert_eq!(cpu.step(), Err(Fault::StackUnderflow));
    assert_eq!(cpu, before);
}

#[test]
fn class_zero_clears_on_a_zero_nibble_and_returns_on_any_other() {
    let mut cpu = program(&[0x0000]);
    cpu.gfx[5] = 1;
    assert_eq!(cpu.step(), Ok(Signals { redraw: true, tone: false }));
    assert_eq!(cpu.gfx, vec![0u8; 2048]);
    assert_eq!(cpu.pc, 0x202);

    let mut cpu = program(&[0x0123]);
    cpu.sp = 1;
    cpu.stack[0] = 0x400;
    cpu.step().unwrap();
    assert_eq!(cpu.pc, 0x400);
    assert_eq!(cpu.sp, 0);
}

#[test]
fn words_with_no_defined_pattern_are_invalid_opcodes() {
    for word in [0x8128u16, 0x812F, 0x8129, 0xE000, 0xE19F, 0xF000, 0xF10A, 0xF2FF, 0xF166] {
        let mut cpu = program(&[word]);
        let before = cpu.clone();
        assert_eq!(cpu.step(), Err(Fault::InvalidOpcode(word)));
        assert_eq!(cpu, before);
        assert_eq!(cpu.pc, 0x200);
    }
}

#[test]
fn fetch_past_the_end_of_memory_is_a_fault() {
    let mut cpu = Cpu::new();
    cpu.pc = 0xFFF;
    let before = cpu.clone();
    assert_eq!(cpu.step(), Err(Fault::MemoryOutOfBounds));
    assert_eq!(cpu, before);

    cpu.pc = 0xFFFF;
    assert_eq!(cpu.step(), Err(Fault::MemoryOutOfBounds));

    let mut cpu = Cpu::new();
    cpu.store_16(0xFFE, 0x6A07);
    cpu.pc = 0xFFE;
    cpu.step().unwrap();
    assert_eq!(cpu.regs[0xA], 7);
    assert_eq!(cpu.pc, 0x1000);
    assert_eq!(cpu.step(), Err(Fault::MemoryOutOfBounds));
}

#[test]
fn skip_past_the_end_is_found_at_the_next_fetch() {
    let mut cpu = program(&[0xBFFF]);
    cpu.regs[0] = 0xFF;
    cpu.step().unwrap();
    assert_eq!(cpu.pc, 0x10FE);
    assert_eq!(cpu.step(), Err(Fault::MemoryOutOfBounds));
}

#[test]
fn add_immediate_wraps_and_leaves_the_flag() {
    let mut cpu = program(&[0x7302]);
    cpu.regs[3] = 0xFF;
    cpu.regs[0xF] = 0x55;
    cpu.step().unwrap();
    assert_eq!(cpu.regs[3], 0x01);
    assert_eq!(cpu.regs[0xF], 0x55);
}

#[test]
fn add_sets_carry_exactly_above_255() {
    let mut cpu = program(&[0x8124]);
    cpu.regs[1] = 0xFF;
    cpu.regs[2] = 0x02;
    cpu.step().unwrap();
    assert_eq!((cpu.regs[1], cpu.regs[0xF]), (0x01, 1));

    let mut cpu = program(&[0x8124]);
    cpu.regs[1] = 0x01;
    cpu.regs[2] = 0x02;
    cpu.regs[0xF] = 1;
    cpu.step().unwrap();
    assert_eq!((cpu.regs[1], cpu.regs[0xF]), (0x03, 0));

    let mut cpu = program(&[0x8124]);
    cpu.regs[1] = 0xFF;
    cpu.regs[2] = 0x00;
    cpu.step().unwrap();
    assert_eq!((cpu.regs[1], cpu.regs[0xF]), (0xFF, 0));

    let mut cpu = program(&[0x8124]);
    cpu.regs[1] = 0xFF;
    cpu.regs[2] = 0x01;
    cpu.step().unwrap();
    assert_eq!((cpu.regs[1], cpu.regs[0xF]), (0x00, 1));
}

#[test]
fn subtract_sets_the_flag_when_there_is_no_borrow() {
    let mut cpu = program(&[0x8125]);
    cpu.regs[1] = 20;
    cpu.regs[2] = 15;
    cpu.step().unwrap();
    assert_eq!((cpu.regs[1], cpu.regs[0xF]), (5, 1));

    let mut cpu = program(&[0x8125]);
    cpu.regs[1] = 0;
    cpu.regs[2] = 1;
    cpu.step().unwrap();
    assert_eq!((cpu.regs[1], cpu.regs[0xF]), (0xFF, 0));

    let mut cpu = program(&[0x8125]);
    cpu.regs[1] = 9;
    cpu.regs[2] = 9;
    cpu.step().unwrap();
    assert_eq!((cpu.regs[1], cpu.regs[0xF]), (0, 1));

    let mut cpu = program(&[0x8127]);
    cpu.regs[1] = 9;
    cpu.regs[2] = 9;
    cpu.step().unwrap();
    assert_eq!((cpu.regs[1], cpu.regs[0xF]), (0, 1));
}

#[test]
fn shifts_put_the_lost_bit_in_the_flag_and_ignore_vy() {
    let mut cpu = program(&[0x8126]);
    cpu.regs[1] = 0b0000_0100;
    cpu.regs[2] = 0xFF;
    cpu.regs[0xF] = 1;
    cpu.step().unwrap();
    assert_eq!((cpu.regs[1], cpu.regs[0xF]), (0b0000_0010, 0));

    let mut cpu = program(&[0x812E]);
    cpu.regs[1] = 0b0100_0001;
    cpu.regs[2] = 0xFF;
    cpu.regs[0xF] = 1;
    cpu.step().unwrap();
    assert_eq!((cpu.regs[1], cpu.regs[0xF]), (0b1000_0010, 0));
}

#[test]
fn result_wins_over_flag_when_x_is_the_flag_register() {
    // VF = VF + V1: operands read first, carry written, then the sum.
    let mut cpu = program(&[0x8F14]);
    cpu.regs[0xF] = 0xFF;
    cpu.regs[1] = 0x03;
    cpu.step().unwrap();
    assert_eq!(cpu.regs[0xF], 0x02);

    // VF = VF - V1 works on the value that VF held before the flag was written.
    let mut cpu = program(&[0x8F15]);
    cpu.regs[0xF] = 10;
    cpu.regs[1] = 3;
    cpu.step().unwrap();
    assert_eq!(cpu.regs[0xF], 7);

    let mut cpu = program(&[0x8F16]);
    cpu.regs[0xF] = 0b0000_0111;
    cpu.step().unwrap();
    assert_eq!(cpu.regs[0xF], 0b0000_0011);

    let mut cpu = program(&[0x8F1E]);
    cpu.regs[0xF] = 0b1000_0011;
    cpu.step().unwrap();
    assert_eq!(cpu.regs[0xF], 0b0000_0110);

    // V1 = V1 + VF: the flag register is an ordinary operand.
    let mut cpu = program(&[0x81F4]);
    cpu.regs[1] = 0xF0;
    cpu.regs[0xF] = 0x20;
    cpu.step().unwrap();
    assert_eq!((cpu.regs[1], cpu.regs[0xF]), (0x10, 1));
}

#[test]
fn random_is_masked_by_the_immediate() {
    let mut cpu = program(&[0xC30F]);
    assert_eq!(cpu.step_with(0xAB), Ok(Signals { redraw: false, tone: false }));
    assert_eq!(cpu.regs[3], 0x0B);
    assert_eq!(cpu.pc, 0x202);

    let mut cpu = program(&[0xC3FF]);
    cpu.step_with(0xAB).unwrap();
    assert_eq!(cpu.regs[3], 0xAB);

    let mut cpu = program(&[0xC3F0]);
    cpu.step().unwrap();
    assert_eq!(cpu.regs[3] & 0x0F, 0);
}

#[test]
fn only_the_random_instruction_reads_the_random_byte() {
    for word in [0x1234u16, 0x6A12, 0x8124, 0xD011, 0xF333, 0x00E0, 0x8128, 0x00EE] {
        let mut a = program(&[word]);
        let mut b = program(&[word]);
        a.i = 0x300;
        b.i = 0x300;
        assert_eq!(a.step_with(0x00), b.step_with(0xFF));
        assert_eq!(a, b);
    }
}

#[test]
fn drawing_a_pixel_twice_puts_it_out_and_reports_the_collision() {
    let mut cpu = program(&[0xD011, 0xD011]);
    cpu.mem[0x300] = 0b1000_0000;
    cpu.i = 0x300;
    cpu.regs[0] = 5;
    cpu.regs[1] = 7;
    cpu.regs[0xF] = 0x33;

    assert_eq!(cpu.step(), Ok(Signals { redraw: true, tone: false }));
    assert!(cpu.should_draw);
    assert_eq!(cpu.gfx[7 * 64 + 5], 1);
    assert_eq!(cpu.gfx.iter().filter(|&&c| c == 1).count(), 1);
    assert_eq!(cpu.regs[0xF], 0);

    assert_eq!(cpu.step(), Ok(Signals { redraw: true, tone: false }));
    assert_eq!(cpu.gfx[7 * 64 + 5], 0);
    assert_eq!(cpu.gfx, vec![0u8; 2048]);
    assert_eq!(cpu.regs[0xF], 1);
    assert_eq!(cpu.i, 0x300);
    assert_eq!(cpu.pc, 0x204);
}

#[test]
fn drawing_reads_one_byte_for_each_row() {
    let mut cpu = program(&[0xD123]);
    cpu.mem[0x300] = 0b1010_0001;
    cpu.mem[0x301] = 0b0000_0000;
    cpu.mem[0x302] = 0b1111_1111;
    cpu.mem[0x303] = 0b1111_1111;
    cpu.i = 0x300;
    cpu.regs[1] = 10;
    cpu.regs[2] = 20;
    cpu.gfx[22 * 64 + 13] = 1;
    cpu.step().unwrap();

    let mut expected = vec![0u8; 2048];
    expected[20 * 64 + 10] = 1;
    expected[20 * 64 + 12] = 1;
    expected[20 * 64 + 17] = 1;
    for column in 10..18 {
        expected[22 * 64 + column] = 1;
    }
    expected[22 * 64 + 13] = 0;
    assert_eq!(cpu.gfx, expected);
    assert_eq!(cpu.regs[0xF], 1);
}

#[test]
fn drawing_wraps_round_both_edges() {
    let mut cpu = program(&[0xD012]);
    cpu.mem[0x300] = 0xFF;
    cpu.mem[0x301] = 0x81;
    cpu.i = 0x300;
    cpu.regs[0] = 62;
    cpu.regs[1] = 31;
    cpu.step().unwrap();

    let mut expected = vec![0u8; 2048];
    for column in [62, 63, 0, 1, 2, 3, 4, 5] {
        expected[31 * 64 + column] = 1;
    }
    expected[62] = 1;
    expected[5] = 1;
    assert_eq!(cpu.gfx, expected);
    assert_eq!(cpu.regs[0xF], 0);

    let mut cpu = program(&[0xD011]);
    cpu.mem[0x300] = 0x80;
    cpu.i = 0x300;
    cpu.regs[0] = 64 + 3;
    cpu.regs[1] = 32 * 7 + 2;
    cpu.step().unwrap();
    let mut expected = vec![0u8; 2048];
    expected[2 * 64 + 3] = 1;
    assert_eq!(cpu.gfx, expected);
}

#[test]
fn drawing_clears_the_flag_before_it_reads_the_coordinates() {
    let mut cpu = program(&[0xDF11]);
    cpu.mem[0x300] = 0x80;
    cpu.i = 0x300;
    cpu.regs[0xF] = 9;
    cpu.regs[1] = 4;
    cpu.step().unwrap();
    let mut expected = vec![0u8; 2048];
    expected[4 * 64] = 1;
    assert_eq!(cpu.gfx, expected);
    assert_eq!(cpu.regs[0xF], 0);
}

#[test]
fn drawing_no_rows_changes_no_cell_but_asks_for_a_redraw() {
    let mut cpu = program(&[0xD010]);
    cpu.i = 0xFFF;
    cpu.regs[0xF] = 1;
    cpu.gfx[100] = 1;
    assert_eq!(cpu.step(), Ok(Signals { redraw: true, tone: false }));
    let mut expected = vec![0u8; 2048];
    expected[100] = 1;
    assert_eq!(cpu.gfx, expected);
    assert_eq!(cpu.regs[0xF], 0);
}

#[test]
fn drawing_rows_past_the_end_of_memory_is_a_fault() {
    let mut cpu = program(&[0xD012]);
    cpu.i = 0xFFF;
    cpu.regs[0xF] = 1;
    let before = cpu.clone();
    assert_eq!(cpu.step(), Err(Fault::MemoryOutOfBounds));
    assert_eq!(cpu, before);

    let mut cpu = program(&[0xD011]);
    cpu.i = 0xFFF;
    cpu.mem[0xFFF] = 0x80;
    cpu.step().unwrap();
    assert_eq!(cpu.gfx[0], 1);
}

#[test]
fn redraw_flag_is_lowered_by_the_next_step() {
    let mut cpu = program(&[0x00E0, 0x6000]);
    assert_eq!(cpu.step(), Ok(Signals { redraw: true, tone: false }));
    assert!(cpu.should_draw);
    assert_eq!(cpu.step(), Ok(Signals { redraw: false, tone: false }));
    assert!(!cpu.should_draw);
}

#[test]
fn skip_if_key_pressed_needs_the_key_in_vx() {
    let mut cpu = program(&[0xE29E]);
    cpu.regs[2] = 0xA;
    cpu.press_key(0xA);
    cpu.step().unwrap();
    assert_eq!(cpu.pc, 0x204);

    let mut cpu = program(&[0xE29E]);
    cpu.regs[2] = 0xA;
    cpu.press_key(0xB);
    cpu.step().unwrap();
    assert_eq!(cpu.pc, 0x202);

    let mut cpu = program(&[0xE29E]);
    cpu.regs[2] = 0xA;
    cpu.step().unwrap();
    assert_eq!(cpu.pc, 0x202);
}

#[test]
fn skip_if_key_not_pressed_skips_with_no_key_held() {
    let mut cpu = program(&[0xE2A1]);
    cpu.regs[2] = 0xA;
    cpu.press_key(0xA);
    cpu.step().unwrap();
    assert_eq!(cpu.pc, 0x202);

    let mut cpu = program(&[0xE2A1]);
    cpu.regs[2] = 0xA;
    cpu.press_key(0xB);
    cpu.step().unwrap();
    assert_eq!(cpu.pc, 0x204);

    let mut cpu = program(&[0xE2A1]);
    cpu.regs[2] = 0xA;
    cpu.step().unwrap();
    assert_eq!(cpu.pc, 0x204);
}

#[test]
fn key_latch_holds_one_key() {
    let mut cpu = Cpu::new();
    cpu.press_key(0x3);
    assert_eq!(cpu.key_pressed, Some(0x3));
    cpu.press_key(0xF);
    assert_eq!(cpu.key_pressed, Some(0xF));
    cpu.press_key(0x10);
    assert_eq!(cpu.key_pressed, Some(0xF));
    cpu.release_key();
    assert_eq!(cpu.key_pressed, None);
    cpu.release_key();
    assert_eq!(cpu.key_pressed, None);
    cpu.press_key(0xFF);
    assert_eq!(cpu.key_pressed, None);
    cpu.press_key(0x0);
    assert_eq!(cpu.key_pressed, Some(0x0));
}

#[test]
fn keyboard_keys_stand_for_the_keypad() {
    let keys = "x123qweasdzc4rfv";
    for (digit, key) in keys.chars().enumerate() {
        assert_eq!(keycode_to_u8(key as i32), Some(digit as u8));
    }
    assert_eq!(keycode_to_u8('4' as i32), Some(0xC));
    assert_eq!(keycode_to_u8('v' as i32), Some(0xF));
    assert_eq!(keycode_to_u8(27), None);
    assert_eq!(keycode_to_u8('5' as i32), None);
    assert_eq!(keycode_to_u8('Q' as i32), None);
    assert_eq!(keycode_to_u8(0), None);
    assert_eq!(keycode_to_u8(-1), None);
    assert_eq!(keycode_to_u8(1073741906), None);
}

#[test]
fn timers_tick_down_to_zero_and_stay() {
    let mut cpu = Cpu::new();
    cpu.delay = 2;
    cpu.tick_timers();
    assert_eq!(cpu.delay, 1);
    cpu.tick_timers();
    assert_eq!(cpu.delay, 0);
    cpu.tick_timers();
    assert_eq!(cpu.delay, 0);
    assert_eq!(cpu.sound, 0);
}

#[test]
fn tone_is_on_while_the_sound_timer_is_above_zero() {
    let mut cpu = program(&[0xF218, 0x6000]);
    cpu.regs[2] = 2;
    assert_eq!(cpu.step(), Ok(Signals { redraw: false, tone: true }));
    assert!(cpu.should_beep);
    cpu.tick_timers();
    assert_eq!(cpu.sound, 1);
    assert!(cpu.should_beep);
    assert_eq!(cpu.step(), Ok(Signals { redraw: false, tone: true }));
    cpu.tick_timers();
    assert_eq!(cpu.sound, 0);
    assert!(!cpu.should_beep);
    cpu.tick_timers();
    assert_eq!(cpu.sound, 0);
    assert!(!cpu.should_beep);
}

#[test]
fn a_step_does_not_tick_the_timers() {
    let mut cpu = program(&[0x6000, 0x6000, 0x6000]);
    cpu.delay = 5;
    cpu.sound = 5;
    for _ in 0..3 {
        assert_eq!(cpu.step(), Ok(Signals { redraw: false, tone: true }));
    }
    assert_eq!(cpu.delay, 5);
    assert_eq!(cpu.sound, 5);
}

#[test]
fn index_addition_wraps_at_sixteen_bits() {
    let mut cpu = program(&[0xF21E]);
    cpu.i = 0xFFFF;
    cpu.regs[2] = 0x03;
    cpu.step().unwrap();
    assert_eq!(cpu.i, 0x0002);
}

#[test]
fn glyph_address_is_five_times_the_digit() {
    let mut cpu = program(&[0xF229]);
    cpu.regs[2] = 0xF;
    cpu.step().unwrap();
    assert_eq!(cpu.i, 75);
    assert_eq!(&cpu.mem[75..80], &[0xF0, 0x80, 0xF0, 0x80, 0x80]);

    let mut cpu = program(&[0xF229]);
    cpu.regs[2] = 0xFF;
    cpu.step().unwrap();
    assert_eq!(cpu.i, 1275);
}

#[test]
fn bcd_stores_hundreds_tens_and_ones() {
    let mut cpu = program(&[0xF333]);
    cpu.regs[3] = 157;
    cpu.i = 0x300;
    cpu.step().unwrap();
    assert_eq!(&cpu.mem[0x300..0x303], &[1, 5, 7]);
    assert_eq!(cpu.i, 0x300);

    let mut cpu = program(&[0xF333]);
    cpu.regs[3] = 255;
    cpu.i = 0xFFD;
    cpu.step().unwrap();
    assert_eq!(&cpu.mem[0xFFD..], &[2, 5, 5]);

    let mut cpu = program(&[0xF333]);
    cpu.regs[3] = 7;
    cpu.i = 0x300;
    cpu.mem[0x300] = 9;
    cpu.mem[0x301] = 9;
    cpu.step().unwrap();
    assert_eq!(&cpu.mem[0x300..0x303], &[0, 0, 7]);
}

#[test]
fn bcd_past_the_end_of_memory_is_a_fault() {
    let mut cpu = program(&[0xF333]);
    cpu.regs[3] = 157;
    cpu.i = 0xFFE;
    let before = cpu.clone();
    assert_eq!(cpu.step(), Err(Fault::MemoryOutOfBounds));
    assert_eq!(cpu, before);
}

#[test]
fn register_dump_stores_v0_to_vx() {
    let mut cpu = program(&[0xF355]);
    for k in 0..16 {
        cpu.regs[k] = 0x10 + k as u8;
    }
    cpu.i = 0x400;
    cpu.step().unwrap();
    assert_eq!(&cpu.mem[0x400..0x404], &[0x10, 0x11, 0x12, 0x13]);
    assert_eq!(cpu.mem[0x404], 0);
    assert_eq!(cpu.i, 0x400);

    let mut cpu = program(&[0xFF55]);
    for k in 0..16 {
        cpu.regs[k] = 0x10 + k as u8;
    }
    cpu.i = 0xFF0;
    cpu.step().unwrap();
    assert_eq!(&cpu.mem[0xFF0..], &cpu.regs[..]);

    let mut cpu = program(&[0xFF55]);
    cpu.i = 0xFF1;
    let before = cpu.clone();
    assert_eq!(cpu.step(), Err(Fault::MemoryOutOfBounds));
    assert_eq!(cpu, before);
}

#[test]
fn register_load_fills_v0_to_vx() {
    let mut cpu = program(&[0xF265]);
    for k in 0..16 {
        cpu.regs[k] = 0xEE;
    }
    cpu.mem[0x400] = 1;
    cpu.mem[0x401] = 2;
    cpu.mem[0x402] = 3;
    cpu.mem[0x403] = 4;
    cpu.i = 0x400;
    cpu.step().unwrap();
    assert_eq!(&cpu.regs[..4], &[1, 2, 3, 0xEE]);
    assert!(cpu.regs[4..].iter().all(|&r| r == 0xEE));
    assert_eq!(cpu.i, 0x400);

    let mut cpu = program(&[0xF065]);
    cpu.mem[0xFFF] = 0x77;
    cpu.i = 0xFFF;
    cpu.step().unwrap();
    assert_eq!(cpu.regs[0], 0x77);

    let mut cpu = program(&[0xF165]);
    cpu.i = 0xFFF;
    let before = cpu.clone();
    assert_eq!(cpu.step(), Err(Fault::MemoryOutOfBounds));
    assert_eq!(cpu, before);
}

#[test]
fn delay_timer_is_read_and_set_through_vx() {
    let mut cpu = program(&[0xF315, 0xF407]);
    cpu.regs[3] = 0x2A;
    cpu.step().unwrap();
    assert_eq!(cpu.delay, 0x2A);
    cpu.tick_timers();
    cpu.step().unwrap();
    assert_eq!(cpu.regs[4], 0x29);
}

#[test]
fn a_small_program_runs_to_its_end() {
    let mut cpu = Cpu::new();
    let rom = vec![
        0x60, 0x05, // V0 = 5
        0x61, 0x03, // V1 = 3
        0x80, 0x14, // V0 += V1
        0x30, 0x08, // skip if V0 == 8
        0x12, 0x00, // (skipped) jump back
        0xA3, 0x00, // I = 0x300
        0xF0, 0x33, // digits of V0 at I
        0x22, 0x12, // call 0x212
        0x12, 0x10, // 0x210: jump to itself
        0x00, 0xEE, // 0x212: return
    ];
    cpu.load(rom).unwrap();
    for _ in 0..8 {
        cpu.step().unwrap();
    }
    assert_eq!(cpu.regs[0], 8);
    assert_eq!(cpu.regs[0xF], 0);
    assert_eq!(&cpu.mem[0x300..0x303], &[0, 0, 8]);
    assert_eq!(cpu.pc, 0x210);
    assert_eq!(cpu.sp, 0);
    assert!(cpu.is_valid());
}

#[test]
fn input_goes_into_the_key_latch() {
    let mut cpu = Cpu::new();
    assert!(cpu.handle_input(Input::KeyDown('q' as i32)));
    assert_eq!(cpu.key_pressed, Some(0x4));
    assert!(cpu.handle_input(Input::KeyDown('v' as i32)));
    assert_eq!(cpu.key_pressed, Some(0xF));
    assert!(cpu.handle_input(Input::KeyDown('p' as i32)));
    assert_eq!(cpu.key_pressed, Some(0xF));
    assert!(cpu.handle_input(Input::KeyUp));
    assert_eq!(cpu.key_pressed, None);
    assert!(cpu.handle_input(Input::KeyDown('p' as i32)));
    assert_eq!(cpu.key_pressed, None);
}

#[test]
fn escape_and_quit_end_the_program_and_change_nothing() {
    let mut cpu = Cpu::new();
    cpu.handle_input(Input::KeyDown('x' as i32));
    let before = cpu.clone();
    assert!(!cpu.handle_input(Input::KeyDown(27)));
    assert_eq!(cpu, before);
    assert!(!cpu.handle_input(Input::Quit));
    assert_eq!(cpu, before);
    assert_eq!(cpu.key_pressed, Some(0x0));
}
