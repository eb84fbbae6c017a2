use chip8_cpu::cpu::{Cpu, CpuError, FLAG, PROGRAM_START, STACK_CAPACITY};
use chip8_cpu::devices::{Display, RandomSource};
use chip8_cpu::instruction::{decode, Instruction};
use chip8_cpu::keypad::Keypad;

struct FakeDisplay {
    clears: u32,
    drawn: Vec<(u8, u8, Vec<u8>)>,
    collide: bool,
}

impl Display for FakeDisplay {
    fn clear(&mut self) {
        self.clears += 1;
    }

    fn draw_sprite(&mut self, x: u8, y: u8, sprite: &[u8]) -> bool {
        self.drawn.push((x, y, sprite.to_vec()));
        self.collide
    }
}

struct FixedRandom(u8);

impl RandomSource for FixedRandom {
    fn next_byte(&mut self) -> u8 {
        self.0
    }
}

fn display() -> FakeDisplay {
    FakeDisplay { clears: 0, drawn: Vec::new(), collide: false }
}

fn ready() -> Cpu {
    let mut c = Cpu::new();
    c.reset();
    c
}

fn load(c: &mut Cpu, at: usize, words: &[u16]) {
    for (k, w) in words.iter().enumerate() {
        c.mem[at + 2 * k] = (w >> 8) as u8;
        c.mem[at + 2 * k + 1] = (w & 0xFF) as u8;
    }
}

fn run(c: &mut Cpu, words: &[u16]) -> Result<(), CpuError> {
    let pc = c.pc as usize;
    load(c, pc, words);
    let mut d = display();
    let mut r = FixedRandom(0);
    let mut out = Ok(());
    for _ in 0..words.len() {
        out = c.execute_cycle(&mut d, &mut r);
        if out.is_err() {
            break;
        }
    }
    out
}

fn cycle(c: &mut Cpu) -> Result<(), CpuError> {
    c.execute_cycle(&mut display(), &mut FixedRandom(0))
}

#[test]
fn new_is_zeroed() {
    let c = Cpu::new();
    assert_eq!(c.pc, 0);
    assert_eq!(c.i, 0);
    assert_eq!(c.sp, 0);
    assert_eq!(c.dt, 0);
    assert!(c.vx.iter().all(|&b| b == 0));
    assert!(c.mem.iter().all(|&b| b == 0));
    assert!(c.ret_stack.is_empty());
}

#[test]
fn reset_is_run_ready() {
    let mut c = Cpu::new();
    c.vx[3] = 7;
    c.i = 99;
    c.dt = 4;
    c.mem[0x300] = 1;
    c.keypad.keys[2] = true;
    c.reset();
    assert_eq!(c.pc, PROGRAM_START);
    assert_eq!(c.i, 0);
    assert_eq!(c.vx, [0; 16]);
    assert_eq!(c.dt, 0);
    assert_eq!(c.sp, 0);
    assert_eq!(&c.mem[0..5], &[0xF0, 0x90, 0x90, 0x90, 0xF0]);
    assert_eq!(&c.mem[75..80], &[0xF0, 0x80, 0xF0, 0x80, 0x80]);
    assert_eq!(c.mem[0x300], 0);
    assert!(c.keypad.keys[2]);
}

#[test]
fn load_then_add_immediate() {
    let mut c = ready();
    assert_eq!(run(&mut c, &[0x6005, 0x7003]), Ok(()));
    assert_eq!(c.vx[0], 8);
    assert_eq!(c.pc, PROGRAM_START + 4);
}

#[test]
fn add_registers_overflow_sets_flag() {
    let mut c = ready();
    c.vx[0] = 0xFF;
    c.vx[1] = 0x01;
    assert_eq!(run(&mut c, &[0x8014]), Ok(()));
    assert_eq!(c.vx[0], 0);
    assert_eq!(c.vx[15], 1);
}

#[test]
fn add_registers_without_overflow_clears_flag() {
    let mut c = ready();
    c.vx[2] = 100;
    c.vx[3] = 155;
    c.vx[15] = 9;
    assert_eq!(run(&mut c, &[0x8234]), Ok(()));
    assert_eq!(c.vx[2], 255);
    assert_eq!(c.vx[15], 0);
}

#[test]
fn add_immediate_wraps_without_flag() {
    let mut c = ready();
    c.vx[4] = 0xF0;
    c.vx[15] = 5;
    assert_eq!(run(&mut c, &[0x7420]), Ok(()));
    assert_eq!(c.vx[4], 0x10);
    assert_eq!(c.vx[15], 5);
}

#[test]
fn sub_with_and_without_borrow() {
    let mut c = ready();
    c.vx[0] = 3;
    c.vx[1] = 5;
    assert_eq!(run(&mut c, &[0x8015]), Ok(()));
    assert_eq!(c.vx[0], 254);
    assert_eq!(c.vx[15], 0);
    let mut c = ready();
    c.vx[0] = 5;
    c.vx[1] = 5;
    assert_eq!(run(&mut c, &[0x8015]), Ok(()));
    assert_eq!(c.vx[0], 0);
    assert_eq!(c.vx[15], 1);
}

#[test]
fn subn_reverses_operands() {
    let mut c = ready();
    c.vx[0] = 5;
    c.vx[1] = 3;
    assert_eq!(run(&mut c, &[0x8017]), Ok(()));
    assert_eq!(c.vx[0], 254);
    assert_eq!(c.vx[15], 0);
    let mut c = ready();
    c.vx[0] = 3;
    c.vx[1] = 10;
    assert_eq!(run(&mut c, &[0x8017]), Ok(()));
    assert_eq!(c.vx[0], 7);
    assert_eq!(c.vx[15], 1);
}

#[test]
fn shifts_leave_flag_zero_or_one() {
    let mut c = ready();
    c.vx[0] = 0b1000_0001;
    assert_eq!(run(&mut c, &[0x800E]), Ok(()));
    assert_eq!(c.vx[0], 0b0000_0010);
    assert_eq!(c.vx[15], 1);
    let mut c = ready();
    c.vx[0] = 0b1000_0001;
    assert_eq!(run(&mut c, &[0x8006]), Ok(()));
    assert_eq!(c.vx[0], 0b0100_0000);
    assert_eq!(c.vx[15], 1);
    let mut c = ready();
    c.vx[15] = 0xFF;
    assert_eq!(run(&mut c, &[0x8F0E]), Ok(()));
    assert!(c.vx[15] <= 1);
    let mut c = ready();
    c.vx[15] = 0xFE;
    assert_eq!(run(&mut c, &[0x8F06]), Ok(()));
    assert_eq!(c.vx[15], 0);
}

#[test]
fn bitwise_and_copy() {
    let mut c = ready();
    c.vx[0] = 0b1100;
    c.vx[1] = 0b1010;
    c.vx[2] = 0b1100;
    c.vx[3] = 0b1100;
    c.vx[4] = 0x42;
    assert_eq!(run(&mut c, &[0x8011, 0x8212, 0x8313, 0x8540]), Ok(()));
    assert_eq!(c.vx[0], 0b1110);
    assert_eq!(c.vx[2], 0b1000);
    assert_eq!(c.vx[3], 0b0110);
    assert_eq!(c.vx[5], 0x42);
}

#[test]
fn skips() {
    let mut c = ready();
    c.vx[0] = 7;
    c.vx[1] = 7;
    assert_eq!(run(&mut c, &[0x3007]), Ok(()));
    assert_eq!(c.pc, PROGRAM_START + 4);
    let mut c = ready();
    c.vx[0] = 7;
    assert_eq!(run(&mut c, &[0x4007]), Ok(()));
    assert_eq!(c.pc, PROGRAM_START + 2);
    let mut c = ready();
    c.vx[0] = 7;
    c.vx[1] = 7;
    assert_eq!(run(&mut c, &[0x5010]), Ok(()));
    assert_eq!(c.pc, PROGRAM_START + 4);
    let mut c = ready();
    c.vx[0] = 7;
    c.vx[1] = 8;
    assert_eq!(run(&mut c, &[0x9010]), Ok(()));
    assert_eq!(c.pc, PROGRAM_START + 4);
}

#[test]
fn jumps_and_index() {
    let mut c = ready();
    assert_eq!(run(&mut c, &[0x1345]), Ok(()));
    assert_eq!(c.pc, 0x345);
    let mut c = ready();
    c.vx[0] = 0x10;
    assert_eq!(run(&mut c, &[0xB300]), Ok(()));
    assert_eq!(c.pc, 0x310);
    let mut c = ready();
    assert_eq!(run(&mut c, &[0xA123]), Ok(()));
    assert_eq!(c.i, 0x123);
    let mut c = ready();
    c.i = 0xFFFF;
    c.vx[1] = 2;
    assert_eq!(run(&mut c, &[0xF11E]), Ok(()));
    assert_eq!(c.i, 1);
    let mut c = ready();
    c.vx[2] = 0xA;
    assert_eq!(run(&mut c, &[0xF229]), Ok(()));
    assert_eq!(c.i, 50);
}

#[test]
fn call_then_return_resumes_after_call() {
    let mut c = ready();
    load(&mut c, 0x400, &[0x00EE]);
    assert_eq!(run(&mut c, &[0x2400]), Ok(()));
    assert_eq!(c.pc, 0x400);
    assert_eq!(c.sp, 1);
    assert_eq!(cycle(&mut c), Ok(()));
    assert_eq!(c.pc, PROGRAM_START + 2);
    assert_eq!(c.sp, 0);
    assert!(c.ret_stack.is_empty());
}

#[test]
fn return_on_empty_stack_underflows() {
    let mut c = ready();
    assert_eq!(run(&mut c, &[0x00EE]), Err(CpuError::StackUnderflow));
    assert_eq!(c.pc, PROGRAM_START);
    assert_eq!(c.sp, 0);
}

#[test]
fn seventeenth_call_overflows() {
    let mut c = ready();
    let words: Vec<u16> = (0..17u16).map(|k| 0x2000 | (PROGRAM_START + 2 * (k + 1))).collect();
    load(&mut c, PROGRAM_START as usize, &words);
    for _ in 0..STACK_CAPACITY {
        assert_eq!(cycle(&mut c), Ok(()));
    }
    assert_eq!(c.sp, 16);
    let before = c.pc;
    assert_eq!(cycle(&mut c), Err(CpuError::StackOverflow));
    assert_eq!(c.sp, 16);
    assert_eq!(c.pc, before);
}

#[test]
fn timer_tick_at_zero_stays_zero() {
    let mut c = ready();
    c.decrement_timers();
    assert_eq!(c.dt, 0);
}

#[test]
fn timer_tick_counts_down() {
    let mut c = ready();
    c.vx[3] = 2;
    assert_eq!(run(&mut c, &[0xF315]), Ok(()));
    assert_eq!(c.dt, 2);
    c.decrement_timers();
    assert_eq!(c.dt, 1);
    c.decrement_timers();
    c.decrement_timers();
    assert_eq!(c.dt, 0);
    c.dt = 9;
    assert_eq!(run(&mut c, &[0xF407]), Ok(()));
    assert_eq!(c.vx[4], 9);
}

#[test]
fn await_key_waits_then_takes_lowest_key() {
    let mut c = ready();
    load(&mut c, PROGRAM_START as usize, &[0xF50A]);
    let mem = c.mem;
    let vx = c.vx;
    for _ in 0..3 {
        assert_eq!(cycle(&mut c), Ok(()));
        assert_eq!(c.pc, PROGRAM_START);
        assert_eq!(c.vx, vx);
        assert_eq!(c.mem, mem);
        assert_eq!(c.i, 0);
    }
    c.keypad.keys[9] = true;
    c.keypad.keys[4] = true;
    assert_eq!(cycle(&mut c), Ok(()));
    assert_eq!(c.vx[5], 4);
    assert_eq!(c.pc, PROGRAM_START + 2);
}

#[test]
fn key_skips() {
    let mut c = ready();
    c.vx[0] = 3;
    c.keypad.keys[3] = true;
    assert_eq!(run(&mut c, &[0xE09E]), Ok(()));
    assert_eq!(c.pc, PROGRAM_START + 4);
    let mut c = ready();
    c.vx[0] = 3;
    c.keypad.keys[3] = true;
    assert_eq!(run(&mut c, &[0xE0A1]), Ok(()));
    assert_eq!(c.pc, PROGRAM_START + 2);
    let mut c = ready();
    c.vx[0] = 200;
    assert_eq!(run(&mut c, &[0xE0A1]), Ok(()));
    assert_eq!(c.pc, PROGRAM_START + 4);
}

#[test]
fn keypad_queries() {
    let mut k = Keypad::new();
    assert_eq!(k.any_key_down(), None);
    assert!(!k.is_key_down(0));
    k.keys[15] = true;
    k.keys[7] = true;
    assert_eq!(k.any_key_down(), Some(7));
    assert!(k.is_key_down(15));
    assert!(!k.is_key_down(16));
}

#[test]
fn store_bcd_digits() {
    let mut c = ready();
    c.vx[6] = 254;
    c.i = 0x300;
    assert_eq!(run(&mut c, &[0xF633]), Ok(()));
    assert_eq!(&c.mem[0x300..0x303], &[2, 5, 4]);
}

#[test]
fn store_bcd_out_of_bounds() {
    let mut c = ready();
    c.i = 4094;
    assert_eq!(run(&mut c, &[0xF033]), Err(CpuError::OutOfBounds));
    assert_eq!(c.pc, PROGRAM_START);
    assert_eq!(c.mem[4094], 0);
}

#[test]
fn store_then_load_registers() {
    let mut c = ready();
    for k in 0..16 {
        c.vx[k] = (k as u8) * 3 + 1;
    }
    let original = c.vx;
    c.i = 0x500;
    load(&mut c, PROGRAM_START as usize, &[0xF355]);
    assert_eq!(cycle(&mut c), Ok(()));
    assert_eq!(&c.mem[0x500..0x504], &original[0..4]);
    assert_eq!(c.mem[0x504], 0);
    for k in 0..4 {
        c.vx[k] = 0;
    }
    let at = c.pc as usize;
    load(&mut c, at, &[0xF365]);
    assert_eq!(cycle(&mut c), Ok(()));
    assert_eq!(c.vx, original);
    assert_eq!(c.i, 0x500);
}

#[test]
fn register_transfer_out_of_bounds() {
    let mut c = ready();
    c.i = 4090;
    assert_eq!(run(&mut c, &[0xFF55]), Err(CpuError::OutOfBounds));
    let mut c = ready();
    c.i = 4090;
    assert_eq!(run(&mut c, &[0xFF65]), Err(CpuError::OutOfBounds));
    assert_eq!(c.vx, [0; 16]);
}

#[test]
fn fetch_past_memory_fails() {
    let mut c = ready();
    c.pc = 4095;
    assert_eq!(c.fetch(), Err(CpuError::OutOfBounds));
    assert_eq!(cycle(&mut c), Err(CpuError::OutOfBounds));
    assert_eq!(c.pc, 4095);
}

#[test]
fn read_word_is_big_endian() {
    let mut mem = [0u8; 4096];
    mem[10] = 0x12;
    mem[11] = 0x34;
    assert_eq!(Cpu::read_word(mem, 10), 0x1234);
}

#[test]
fn draw_hands_sprite_to_display() {
    let mut c = ready();
    c.vx[1] = 10;
    c.vx[2] = 20;
    c.i = 5;
    load(&mut c, PROGRAM_START as usize, &[0xD123, 0xD123]);
    let mut d = FakeDisplay { clears: 0, drawn: Vec::new(), collide: true };
    let mut r = FixedRandom(0);
    assert_eq!(c.execute_cycle(&mut d, &mut r), Ok(()));
    assert_eq!(d.drawn, vec![(10, 20, vec![0x20, 0x60, 0x20])]);
    assert_eq!(c.vx[FLAG], 1);
    d.collide = false;
    assert_eq!(c.execute_cycle(&mut d, &mut r), Ok(()));
    assert_eq!(c.vx[FLAG], 0);
}

#[test]
fn draw_out_of_bounds_does_not_draw() {
    let mut c = ready();
    c.i = 4094;
    load(&mut c, PROGRAM_START as usize, &[0xD013]);
    let mut d = display();
    assert_eq!(c.execute_cycle(&mut d, &mut FixedRandom(0)), Err(CpuError::OutOfBounds));
    assert!(d.drawn.is_empty());
    assert_eq!(c.pc, PROGRAM_START);
}

#[test]
fn clear_and_random() {
    let mut c = ready();
    load(&mut c, PROGRAM_START as usize, &[0x00E0, 0xC30F]);
    let mut d = display();
    let mut r = FixedRandom(0xAB);
    assert_eq!(c.execute_cycle(&mut d, &mut r), Ok(()));
    assert_eq!(d.clears, 1);
    assert_eq!(c.execute_cycle(&mut d, &mut r), Ok(()));
    assert_eq!(c.vx[3], 0x0B);
}

#[test]
fn unknown_word_only_advances() {
    let mut c = ready();
    c.vx[0] = 1;
    assert_eq!(run(&mut c, &[0x0123]), Ok(()));
    assert_eq!(c.pc, PROGRAM_START + 2);
    assert_eq!(c.vx[0], 1);
    assert_eq!(decode(0x0123), Instruction::Unknown);
    assert_eq!(decode(0x8008), Instruction::Unknown);
    assert_eq!(decode(0xE000), Instruction::Unknown);
    assert_eq!(decode(0xF0FF), Instruction::Unknown);
}

#[test]
fn decode_fields() {
    assert_eq!(decode(0xD5A7), Instruction::Draw { x: 5, y: 0xA, n: 7 });
    assert_eq!(decode(0x2ABC), Instruction::Call { addr: 0xABC });
    assert_eq!(decode(0x6C42), Instruction::LoadImmediate { x: 0xC, byte: 0x42 });
    assert_eq!(decode(0x00EE), Instruction::Return);
    assert_eq!(decode(0x00E0), Instruction::ClearScreen);
}
