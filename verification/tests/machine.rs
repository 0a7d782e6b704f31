//! Whole-machine behavior through power-on, cartridge loading and the cycle
//! loop.

use chip8::keymap::key_index;
use chip8::{CpuError, Processor};

const NO_KEYS: [bool; 16] = [false; 16];

fn loaded(program: &[u8]) -> Processor {
    let mut p = Processor::new_at(0);
    p.load_cartridge(program).expect("program fits");
    p
}

#[test]
fn power_on_state() {
    let p = Processor::new_at(7);
    assert_eq!(p.pc(), 0x200);
    assert_eq!(p.index_register(), 0);
    assert_eq!(p.sp, 0);
    assert_eq!(p.delay_timer, 0);
    assert_eq!(p.sound_timer, 0);
    assert_eq!(p.last_tick_ms, 7);
    for x in 0..16 {
        assert_eq!(p.reg(x), 0);
    }
    // The font set sits at [0x50, 0xA0): the 0 glyph starts with 0xF0, the F
    // glyph ends with 0x80.
    assert_eq!(p.memory[0x50], 0xF0);
    assert_eq!(p.memory[0x9F], 0x80);
    assert_eq!(p.memory[0x4F], 0);
    assert_eq!(p.memory[0xA0], 0);
}

#[test]
fn cartridge_loads_at_program_start() {
    let p = loaded(&[0xAB, 0xCD]);
    assert_eq!(p.memory[0x200], 0xAB);
    assert_eq!(p.memory[0x201], 0xCD);
    assert_eq!(p.memory[0x202], 0);
}

#[test]
fn cartridge_of_maximal_size_loads() {
    let mut p = Processor::new_at(0);
    let image = vec![0x77u8; 3584];
    assert_eq!(p.load_cartridge(&image), Ok(()));
    assert_eq!(p.memory[0xFFF], 0x77);
}

#[test]
fn oversized_cartridge_is_rejected() {
    let mut p = Processor::new_at(0);
    let image = vec![0u8; 3585];
    assert_eq!(p.load_cartridge(&image), Err(CpuError::ProgramTooLarge));
    assert_eq!(p.pc(), 0x200);
}

#[test]
fn load_then_skip_advances_by_four() {
    // 6007 (reg[0] = 7) then 3007 (skip if reg[0] == 7): the skip is always
    // taken, so the second cycle advances the program counter by 4.
    let mut p = loaded(&[0x60, 0x07, 0x30, 0x07]);
    p.step(NO_KEYS, 0, 0).expect("load executes");
    assert_eq!(p.pc(), 0x202);
    assert_eq!(p.reg(0), 7);
    p.step(NO_KEYS, 0, 0).expect("skip executes");
    assert_eq!(p.pc(), 0x206);
}

#[test]
fn call_then_return_restores_pc() {
    // 2204 calls the subroutine at 0x204; its 00EE returns to the address
    // immediately after the call.
    let mut p = loaded(&[0x22, 0x04, 0x00, 0x00, 0x00, 0xEE]);
    p.step(NO_KEYS, 0, 0).expect("call executes");
    assert_eq!(p.pc(), 0x204);
    assert_eq!(p.sp, 1);
    p.step(NO_KEYS, 0, 0).expect("return executes");
    assert_eq!(p.pc(), 0x202);
    assert_eq!(p.sp, 0);
}

#[test]
fn delay_timer_decrements_once_per_sixtieth() {
    // With delay_timer = 10 and more than 1/60 s elapsed between cycles, one
    // check decrements it to exactly 9, never more.
    let mut p = loaded(&[0x00, 0x00, 0x00, 0x00, 0x00, 0x00]);
    p.v[0] = 10;
    chip8::exec::inst_Fx15(&mut p, 0, 1000);
    assert_eq!(p.delay_timer, 10);
    p.step(NO_KEYS, 1017, 0).expect("cycle runs");
    assert_eq!(p.delay_timer, 9);
    p.step(NO_KEYS, 1020, 0).expect("cycle runs");
    assert_eq!(p.delay_timer, 9); // only 3 ms since the last decrement
    p.step(NO_KEYS, 1034, 0).expect("cycle runs");
    assert_eq!(p.delay_timer, 8);
}

#[test]
fn sound_timer_decrements_with_the_clock() {
    let mut p = loaded(&[0x00, 0x00, 0x00, 0x00]);
    p.v[0] = 3;
    chip8::exec::inst_Fx18(&mut p, 0);
    chip8::exec::inst_Fx15(&mut p, 1, 1000); // delay = v[1] = 0, timestamp 1000
    p.step(NO_KEYS, 1017, 0).expect("cycle runs");
    assert_eq!(p.sound_timer, 2);
    p.step(NO_KEYS, 1018, 0).expect("cycle runs");
    assert_eq!(p.sound_timer, 2);
}

#[test]
fn clear_load_jump_scenario() {
    // 00E0 (clear), 6000 (reg[0] = 0), 1200 (jump to the program start):
    // after the cycles the framebuffer is off, reg[0] is 0, and the program
    // counter loops at the jump target.
    let mut p = loaded(&[0x00, 0xE0, 0x60, 0x00, 0x12, 0x00]);
    p.vram[100] = 1; // something on screen before the clear
    let out = p.step(NO_KEYS, 0, 0).expect("clear executes");
    assert!(out.video_out.iter().all(|&px| px == 0));
    assert_eq!(p.pc(), 0x202);
    p.step(NO_KEYS, 0, 0).expect("load executes");
    assert_eq!(p.reg(0), 0);
    assert_eq!(p.pc(), 0x204);
    p.step(NO_KEYS, 0, 0).expect("jump executes");
    assert_eq!(p.pc(), 0x200);
    p.step(NO_KEYS, 0, 0).expect("clear executes again");
    assert_eq!(p.pc(), 0x202);
    p.step(NO_KEYS, 0, 0).expect("load executes again");
    p.step(NO_KEYS, 0, 0).expect("jump executes again");
    assert_eq!(p.pc(), 0x200);
}

#[test]
fn unknown_opcodes_are_no_ops() {
    let mut p = loaded(&[0x8A, 0xB8, 0xEA, 0x55, 0xFA, 0xFF]);
    for step in 1..=3 {
        p.step(NO_KEYS, 0, 0).expect("no-op executes");
        assert_eq!(p.pc(), 0x200 + 2 * step);
    }
    for x in 0..16 {
        assert_eq!(p.reg(x), 0);
    }
}

#[test]
fn fetch_past_address_space_is_fatal() {
    let mut p = loaded(&[0x1F, 0xFF]); // jump to 0xFFF
    p.step(NO_KEYS, 0, 0).expect("jump executes");
    assert_eq!(p.pc(), 0xFFF);
    assert!(matches!(p.step(NO_KEYS, 0, 0), Err(CpuError::MemoryOutOfBounds)));
}

#[test]
fn return_with_empty_stack_is_fatal_in_a_program() {
    let mut p = loaded(&[0x00, 0xEE]);
    assert!(matches!(p.step(NO_KEYS, 0, 0), Err(CpuError::StackUnderflow)));
}

#[test]
fn draw_through_the_cycle_reports_video_change() {
    // F029 resolves the font glyph for reg[0], D015 draws it: the cycle
    // reports a video change.
    let mut p = loaded(&[0xF0, 0x29, 0xD0, 0x15]);
    p.step(NO_KEYS, 0, 0).expect("font lookup executes");
    assert_eq!(p.index_register(), 0x50);
    let out = p.step(NO_KEYS, 0, 0).expect("draw executes");
    assert!(out.video_changed);
    assert_eq!(out.video_out[0], 1); // top-left pixel of the 0 glyph
    assert_eq!(out.video_out, p.vram);
}

#[test]
fn wait_for_key_stalls_the_program_counter_across_cycles() {
    let mut p = loaded(&[0xF5, 0x0A, 0x00, 0x00]);
    p.step(NO_KEYS, 0, 0).expect("wait executes");
    assert_eq!(p.pc(), 0x200);
    p.step(NO_KEYS, 0, 0).expect("wait executes again");
    assert_eq!(p.pc(), 0x200);
    let mut keys = NO_KEYS;
    keys[0xC] = true;
    p.step(keys, 0, 0).expect("key arrives");
    assert_eq!(p.pc(), 0x202);
    assert_eq!(p.reg(5), 0xC);
}

#[test]
fn random_instruction_masks_the_supplied_byte() {
    let mut p = loaded(&[0xC0, 0x0F]);
    p.step(NO_KEYS, 0, 0b1011_0110).expect("random executes");
    assert_eq!(p.reg(0), 0b0000_0110);
}

#[test]
fn cycle_runs_against_the_host_clock_and_entropy() {
    let mut p = loaded(&[0x60, 0x2A]);
    let out = p.cycle(NO_KEYS).expect("cycle runs");
    assert_eq!(p.reg(0), 0x2A);
    assert_eq!(p.pc(), 0x202);
    assert!(!out.video_changed);
}

#[test]
fn host_keys_map_to_the_keypad() {
    assert_eq!(key_index(b'1'), Some(0x1));
    assert_eq!(key_index(b'2'), Some(0x2));
    assert_eq!(key_index(b'3'), Some(0x3));
    assert_eq!(key_index(b'4'), Some(0xC));
    assert_eq!(key_index(b'q'), Some(0x4));
    assert_eq!(key_index(b'w'), Some(0x5));
    assert_eq!(key_index(b'e'), Some(0x6));
    assert_eq!(key_index(b'r'), Some(0xD));
    assert_eq!(key_index(b'a'), Some(0x7));
    assert_eq!(key_index(b's'), Some(0x8));
    assert_eq!(key_index(b'd'), Some(0x9));
    assert_eq!(key_index(b'f'), Some(0xE));
    assert_eq!(key_index(b'z'), Some(0xA));
    assert_eq!(key_index(b'x'), Some(0x0));
    assert_eq!(key_index(b'c'), Some(0xB));
    assert_eq!(key_index(b'v'), Some(0xF));
    assert_eq!(key_index(b'g'), None);
}
