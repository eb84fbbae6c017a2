use vstd::prelude::*;

use crate::devices::{Display, RandomSource};
use crate::instruction::{decode, decode_spec, Instruction};
use crate::keypad::{key_held, lowest_held, Keypad};

verus! {

/// Address at which programs start.
pub const PROGRAM_START: u16 = 0x200;

/// Size of memory in bytes.
pub const MEMORY_SIZE: usize = 4096;

/// Greatest number of return addresses the call stack holds.
pub const STACK_CAPACITY: usize = 16;

/// Index of the flag register.
pub const FLAG: usize = 15;

/// Bytes per font glyph.
pub const GLYPH_SIZE: u16 = 5;

/// A failure that stops the current instruction; the state is left as it was.
#[derive(Clone, Copy, Debug, PartialEq, Eq, Structural)]
pub enum CpuError {
    OutOfBounds,
    StackOverflow,
    StackUnderflow,
}

/// The processor state as mathematical values.
#[verifier::ext_equal]
pub struct CpuState {
    pub i: u16,
    pub pc: u16,
    pub v: Seq<u8>,
    pub mem: Seq<u8>,
    pub stack: Seq<u16>,
    pub dt: u8,
    pub keys: Seq<bool>,
}

/// The big-endian word stored at `a` and `a + 1`.
pub open spec fn word_at(mem: Seq<u8>, a: int) -> u16 {
    (mem[a] as int * 256 + mem[a + 1] as int) as u16
}

/// `t` with the program counter moved one more instruction on when `c` holds.
pub open spec fn skip_if(t: CpuState, c: bool) -> CpuState {
    if c {
        CpuState { pc: (t.pc + 2) as u16, ..t }
    } else {
        t
    }
}

/// `t` with register `x` set to `b`.
pub open spec fn set_reg(t: CpuState, x: u8, b: u8) -> CpuState {
    CpuState { v: t.v.update(x as int, b), ..t }
}

/// `t` with register `x` set to `b`, then the flag register to `f`.
pub open spec fn set_reg_flag(t: CpuState, x: u8, b: u8, f: u8) -> CpuState {
    CpuState { v: t.v.update(x as int, b).update(FLAG as int, f), ..t }
}

/// `(a - b) mod 256`.
pub open spec fn wrap_sub(a: u8, b: u8) -> u8 {
    if a >= b {
        (a - b) as u8
    } else {
        (a - b + 256) as u8
    }
}

/// The memory in which `regs[0..=x]` has been written from address `i` on.
pub open spec fn stored(mem: Seq<u8>, regs: Seq<u8>, i: int, x: int) -> Seq<u8> {
    Seq::new(mem.len(), |k: int| if i <= k <= i + x { regs[k - i] } else { mem[k] })
}

/// The registers in which `regs[0..=x]` has been read from address `i` on.
pub open spec fn loaded(regs: Seq<u8>, mem: Seq<u8>, i: int, x: int) -> Seq<u8> {
    Seq::new(regs.len(), |k: int| if k <= x { mem[i + k] } else { regs[k] })
}

/// What executing `ins`, located at `s.pc`, does to `s`. `rnd` is the byte
/// the random source gave and `collided` what the display reported.
pub open spec fn execute_spec(s: CpuState, ins: Instruction, rnd: u8, collided: bool) -> Result<
    CpuState,
    CpuError,
> {
    if s.pc as int + 1 >= MEMORY_SIZE {
        Err(CpuError::OutOfBounds)
    } else {
        let t = CpuState { pc: (s.pc + 2) as u16, ..s };
        match ins {
            Instruction::ClearScreen => Ok(t),
            Instruction::Return => if t.stack.len() == 0 {
                Err(CpuError::StackUnderflow)
            } else {
                Ok(CpuState { pc: t.stack.last(), stack: t.stack.drop_last(), ..t })
            },
            Instruction::Jump { addr } => Ok(CpuState { pc: addr, ..t }),
            Instruction::Call { addr } => if t.stack.len() >= STACK_CAPACITY {
                Err(CpuError::StackOverflow)
            } else {
                Ok(CpuState { pc: addr, stack: t.stack.push(t.pc), ..t })
            },
            Instruction::SkipIfEqual { x, byte } => Ok(skip_if(t, t.v[x as int] == byte)),
            Instruction::SkipIfNotEqual { x, byte } => Ok(skip_if(t, t.v[x as int] != byte)),
            Instruction::SkipIfRegistersEqual { x, y } => Ok(
                skip_if(t, t.v[x as int] == t.v[y as int]),
            ),
            Instruction::LoadImmediate { x, byte } => Ok(set_reg(t, x, byte)),
            Instruction::AddImmediate { x, byte } => Ok(
                set_reg(t, x, ((t.v[x as int] + byte) % 256) as u8),
            ),
            Instruction::Copy { x, y } => Ok(set_reg(t, x, t.v[y as int])),
            Instruction::Or { x, y } => Ok(set_reg(t, x, t.v[x as int] | t.v[y as int])),
            Instruction::And { x, y } => Ok(set_reg(t, x, t.v[x as int] & t.v[y as int])),
            Instruction::Xor { x, y } => Ok(set_reg(t, x, t.v[x as int] ^ t.v[y as int])),
            Instruction::AddRegisters { x, y } => {
                let sum = t.v[x as int] + t.v[y as int];
                Ok(set_reg_flag(t, x, (sum % 256) as u8, if sum > 255 { 1 } else { 0 }))
            },
            Instruction::Sub { x, y } => {
                let a = t.v[x as int];
                let b = t.v[y as int];
                Ok(set_reg_flag(t, x, wrap_sub(a, b), if a < b { 0 } else { 1 }))
            },
            Instruction::ShiftRight { x } => {
                let a = t.v[x as int];
                Ok(set_reg_flag(t, x, a / 2, a % 2))
            },
            Instruction::SubN { x, y } => {
                let a = t.v[x as int];
                let b = t.v[y as int];
                Ok(set_reg_flag(t, x, wrap_sub(b, a), if b < a { 0 } else { 1 }))
            },
            Instruction::ShiftLeft { x } => {
                let a = t.v[x as int];
                Ok(set_reg_flag(t, x, ((a * 2) % 256) as u8, a / 128))
            },
            Instruction::SkipIfRegistersNotEqual { x, y } => Ok(
                skip_if(t, t.v[x as int] != t.v[y as int]),
            ),
            Instruction::LoadIndex { addr } => Ok(CpuState { i: addr, ..t }),
            Instruction::JumpOffset { addr } => Ok(
                CpuState { pc: (addr + t.v[0]) as u16, ..t },
            ),
            Instruction::Random { x, byte } => Ok(set_reg(t, x, rnd & byte)),
            Instruction::Draw { x, y, n } => if t.i + n > MEMORY_SIZE {
                Err(CpuError::OutOfBounds)
            } else {
                Ok(set_reg(t, FLAG as u8, if collided { 1 } else { 0 }))
            },
            Instruction::SkipIfKeyDown { x } => Ok(skip_if(t, key_held(t.keys, t.v[x as int] as int))),
            Instruction::SkipIfKeyUp { x } => Ok(skip_if(t, !key_held(t.keys, t.v[x as int] as int))),
            Instruction::LoadDelayTimer { x } => Ok(set_reg(t, x, t.dt)),
            Instruction::AwaitKey { x } => match lowest_held(t.keys) {
                Some(k) => Ok(set_reg(t, x, k as u8)),
                None => Ok(s),
            },
            Instruction::SetDelayTimer { x } => Ok(CpuState { dt: t.v[x as int], ..t }),
            Instruction::AddToIndex { x } => Ok(
                CpuState { i: ((t.i + t.v[x as int]) % 0x10000) as u16, ..t },
            ),
            Instruction::LoadFontAddress { x } => Ok(
                CpuState { i: (t.v[x as int] * GLYPH_SIZE) as u16, ..t },
            ),
            Instruction::StoreBcd { x } => if t.i + 3 > MEMORY_SIZE {
                Err(CpuError::OutOfBounds)
            } else {
                let b = t.v[x as int];
                Ok(
                    CpuState {
                        mem: t.mem.update(t.i as int, b / 100).update(
                            t.i + 1,
                            (b / 10) % 10,
                        ).update(t.i + 2, b % 10),
                        ..t
                    },
                )
            },
            Instruction::StoreRegisters { x } => if t.i + x + 1 > MEMORY_SIZE {
                Err(CpuError::OutOfBounds)
            } else {
                Ok(CpuState { mem: stored(t.mem, t.v, t.i as int, x as int), ..t })
            },
            Instruction::LoadRegisters { x } => if t.i + x + 1 > MEMORY_SIZE {
                Err(CpuError::OutOfBounds)
            } else {
                Ok(CpuState { v: loaded(t.v, t.mem, t.i as int, x as int), ..t })
            },
            Instruction::Unknown => Ok(t),
        }
    }
}

/// One cycle: the instruction at the program counter is fetched, decoded and
/// executed.
pub open spec fn step_spec(s: CpuState, rnd: u8, collided: bool) -> Result<CpuState, CpuError> {
    if s.pc as int + 1 >= MEMORY_SIZE {
        Err(CpuError::OutOfBounds)
    } else {
        execute_spec(s, decode_spec(word_at(s.mem, s.pc as int)), rnd, collided)
    }
}

/// The cycle from `s` neither draws nor asks for a random byte.
pub open spec fn uses_no_device(s: CpuState) -> bool {
    s.pc as int + 1 >= MEMORY_SIZE || {
        let ins = decode_spec(word_at(s.mem, s.pc as int));
        !(ins is Random) && !(ins is Draw)
    }
}

/// `after` and `r` are what an operation whose effect is `spec` leaves:
/// the new state on success, the old state and the error on failure.
pub open spec fn outcome(before: CpuState, after: CpuState, r: Result<(), CpuError>, spec: Result<CpuState, CpuError>) -> bool {
    match spec {
        Ok(s) => r is Ok && after == s,
        Err(e) => r == Err::<(), CpuError>(e) && after == before,
    }
}

/// The glyphs of the hexadecimal digits 0 to F, five bytes each.
pub open spec fn font() -> Seq<u8> {
    seq![
        0xF0, 0x90, 0x90, 0x90, 0xF0,
        0x20, 0x60, 0x20, 0x20, 0x70,
        0xF0, 0x10, 0xF0, 0x80, 0xF0,
        0xF0, 0x10, 0xF0, 0x10, 0xF0,
        0x90, 0x90, 0xF0, 0x10, 0x10,
        0xF0, 0x80, 0xF0, 0x10, 0xF0,
        0xF0, 0x80, 0xF0, 0x90, 0xF0,
        0xF0, 0x10, 0x20, 0x40, 0x40,
        0xF0, 0x90, 0xF0, 0x90, 0xF0,
        0xF0, 0x90, 0xF0, 0x10, 0xF0,
        0xF0, 0x90, 0xF0, 0x90, 0x90,
        0xE0, 0x90, 0xE0, 0x90, 0xE0,
        0xF0, 0x80, 0x80, 0x80, 0xF0,
        0xE0, 0x90, 0x90, 0x90, 0xE0,
        0xF0, 0x80, 0xF0, 0x80, 0xF0,
        0xF0, 0x80, 0xF0, 0x80, 0x80,
    ]
}

/// Memory after a reset: the font at address 0, zero elsewhere.
pub open spec fn reset_memory() -> Seq<u8> {
    Seq::new(MEMORY_SIZE as nat, |k: int| if k < font().len() { font()[k] } else { 0 })
}

/// The state of a processor that was just created.
pub open spec fn zeroed(keys: Seq<bool>) -> CpuState {
    CpuState {
        i: 0,
        pc: 0,
        v: Seq::new(16, |k: int| 0),
        mem: Seq::new(MEMORY_SIZE as nat, |k: int| 0),
        stack: Seq::empty(),
        dt: 0,
        keys,
    }
}

/// The run-ready state that a reset leaves.
pub open spec fn ready(keys: Seq<bool>) -> CpuState {
    CpuState { pc: PROGRAM_START, mem: reset_memory(), ..zeroed(keys) }
}

/// The delay timer one tick later.
pub open spec fn tick(dt: u8) -> u8 {
    if dt > 0 {
        (dt - 1) as u8
    } else {
        0
    }
}

/// The processor: registers, memory, call stack, delay timer and keypad.
pub struct Cpu {
    /// Index register.
    pub i: u16,
    /// Program counter.
    pub pc: u16,
    /// Registers V0 to VF.
    pub vx: [u8; 16],
    /// Memory.
    pub mem: [u8; 4096],
    /// Return addresses, the latest last.
    pub ret_stack: Vec<u16>,
    /// Stack pointer: the next free slot of `ret_stack`.
    pub sp: u8,
    /// Delay timer.
    pub dt: u8,
    /// Keypad.
    pub keypad: Keypad,
}

impl View for Cpu {
    type V = CpuState;

    open spec fn view(&self) -> CpuState {
        CpuState {
            i: self.i,
            pc: self.pc,
            v: self.vx@,
            mem: self.mem@,
            stack: self.ret_stack@,
            dt: self.dt,
            keys: self.keypad@,
        }
    }
}

impl Cpu {
    /// The stack pointer agrees with the stack, which is within its capacity.
    pub open spec fn wf(&self) -> bool {
        &&& self.ret_stack@.len() == self.sp as int
        &&& self.sp as int <= STACK_CAPACITY
    }

    /// A processor with everything zeroed and no key held.
    pub fn new() -> (r: Cpu)
        ensures
            r.wf(),
            r@ == zeroed(Seq::new(16, |k: int| false)),
    {
        let r = Cpu {
            i: 0,
            pc: 0,
            vx: [0; 16],
            mem: [0; 4096],
            ret_stack: Vec::new(),
            sp: 0,
            dt: 0,
            keypad: Keypad::new(),
        };
        assert(r@ =~= zeroed(Seq::new(16, |k: int| false)));
        r
    }

    /// Puts the processor in its run-ready state: the program counter at
    /// the program start, the font loaded, everything else zeroed. The
    /// keypad, which the host owns, is kept.
    pub fn reset(&mut self)
        ensures
            final(self).wf(),
            final(self)@ == ready(old(self)@.keys),
    {
        self.i = 0;
        self.pc = PROGRAM_START;
        self.vx = [0; 16];
        self.mem = [0; 4096];
        self.ret_stack = Vec::new();
        self.sp = 0;
        self.dt = 0;
        let glyphs: [u8; 80] = [
            0xF0, 0x90, 0x90, 0x90, 0xF0,
            0x20, 0x60, 0x20, 0x20, 0x70,
            0xF0, 0x10, 0xF0, 0x80, 0xF0,
            0xF0, 0x10, 0xF0, 0x10, 0xF0,
            0x90, 0x90, 0xF0, 0x10, 0x10,
            0xF0, 0x80, 0xF0, 0x10, 0xF0,
            0xF0, 0x80, 0xF0, 0x90, 0xF0,
            0xF0, 0x10, 0x20, 0x40, 0x40,
            0xF0, 0x90, 0xF0, 0x90, 0xF0,
            0xF0, 0x90, 0xF0, 0x10, 0xF0,
            0xF0, 0x90, 0xF0, 0x90, 0x90,
            0xE0, 0x90, 0xE0, 0x90, 0xE0,
            0xF0, 0x80, 0x80, 0x80, 0xF0,
            0xE0, 0x90, 0x90, 0x90, 0xE0,
            0xF0, 0x80, 0xF0, 0x80, 0xF0,
            0xF0, 0x80, 0xF0, 0x80, 0x80,
        ];
        assert(glyphs@ =~= font());
        let mut k: usize = 0;
        while k < 80
            invariant
                k <= 80,
                glyphs@ == font(),
                self.i == 0,
                self.pc == PROGRAM_START,
                self.vx@ == Seq::new(16, |j: int| 0u8),
                self.ret_stack@.len() == 0,
                self.sp == 0,
                self.dt == 0,
                self.keypad == old(self).keypad,
                forall|j: int| 0 <= j < MEMORY_SIZE ==> self.mem@[j] == if j < k { font()[j] } else { 0 },
            decreases 80 - k,
        {
            self.mem[k] = glyphs[k];
            k = k + 1;
        }
        assert(self.mem@ =~= reset_memory());
        assert(self@ =~= ready(old(self)@.keys));
    }

    /// One tick of the delay timer: down by one, but not below zero.
    pub fn decrement_timers(&mut self)
        ensures
            final(self).wf() == old(self).wf(),
            final(self)@ == (CpuState { dt: tick(old(self).dt), ..old(self)@ }),
            final(self).sp == old(self).sp,
    {
        if self.dt > 0 {
            self.dt -= 1;
        }
    }

    /// The big-endian word at `index` and `index + 1`.
    pub fn read_word(memory: [u8; 4096], index: u16) -> (r: u16)
        requires
            index + 1 < MEMORY_SIZE,
        ensures
            r == word_at(memory@, index as int),
    {
        (memory[index as usize] as u16) * 256 + memory[index as usize + 1] as u16
    }

    /// The instruction word at the program counter.
    pub fn fetch(&self) -> (r: Result<u16, CpuError>)
        ensures
            self.pc + 1 < MEMORY_SIZE ==> r == Ok::<u16, CpuError>(word_at(self@.mem, self.pc as int)),
            self.pc + 1 >= MEMORY_SIZE ==> r == Err::<u16, CpuError>(CpuError::OutOfBounds),
    {
        if self.pc as usize + 1 >= MEMORY_SIZE {
            Err(CpuError::OutOfBounds)
        } else {
            Ok(Cpu::read_word(self.mem, self.pc))
        }
    }

    /// The `n` bytes of memory from the index register on.
    pub fn sprite_bytes(&self, n: u8) -> (r: Vec<u8>)
        requires
            self.i + n <= MEMORY_SIZE,
        ensures
            r@ == self@.mem.subrange(self.i as int, self.i + n),
    {
        let i = self.i as usize;
        let mut r: Vec<u8> = Vec::new();
        let mut k: usize = 0;
        while k < n as usize
            invariant
                k <= n,
                i == self.i,
                i + n <= MEMORY_SIZE,
                r@ == self@.mem.subrange(i as int, i + k),
            decreases n - k,
        {
            r.push(self.mem[i + k]);
            k = k + 1;
            assert(r@ =~= self@.mem.subrange(i as int, i + k));
        }
        r
    }

    /// One cycle: fetches the instruction at the program counter, decodes
    /// it and executes it. Clear and draw go to `display`, the random
    /// instruction takes its byte from `rng`; whatever those return, the
    /// state follows the step for that byte and that collision report.
    pub fn execute_cycle<D: Display, R: RandomSource>(&mut self, display: &mut D, rng: &mut R) -> (r: Result<(), CpuError>)
        requires
            old(self).wf(),
        ensures
            final(self).wf(),
            exists|rnd: u8, collided: bool|
                outcome(old(self)@, final(self)@, r, #[trigger] step_spec(old(self)@, rnd, collided)),
            uses_no_device(old(self)@) ==> outcome(
                old(self)@,
                final(self)@,
                r,
                step_spec(old(self)@, 0, false),
            ),
    {
        let word = match self.fetch() {
            Ok(w) => w,
            Err(e) => {
                assert(outcome(old(self)@, self@, Err(e), step_spec(old(self)@, 0, false)));
                return Err(e);
            },
        };
        let ins = decode(word);
        let mut rnd: u8 = 0;
        let mut collided = false;
        match ins {
            Instruction::ClearScreen => display.clear(),
            Instruction::Random { .. } => {
                rnd = rng.next_byte();
            },
            Instruction::Draw { x, y, n } => {
                if self.i as usize + n as usize > MEMORY_SIZE {
                    assert(outcome(old(self)@, self@, Err(CpuError::OutOfBounds), step_spec(old(self)@, 0, false)));
                    return Err(CpuError::OutOfBounds);
                }
                let sprite = self.sprite_bytes(n);
                collided = display.draw_sprite(self.vx[x as usize], self.vx[y as usize], sprite.as_slice());
            },
            _ => {},
        }
        let r = self.execute(ins, rnd, collided);
        assert(outcome(old(self)@, self@, r, step_spec(old(self)@, rnd, collided)));
        r
    }

    /// Executes `ins` as the instruction located at the program counter.
    /// `rnd` is used by the random instruction, `collided` by draw.
    pub fn execute(&mut self, ins: Instruction, rnd: u8, collided: bool) -> (r: Result<(), CpuError>)
        requires
            old(self).wf(),
            ins.wf(),
        ensures
            final(self).wf(),
            outcome(old(self)@, final(self)@, r, execute_spec(old(self)@, ins, rnd, collided)),
    {
        if self.pc as usize + 1 >= MEMORY_SIZE {
            return Err(CpuError::OutOfBounds);
        }
        let next: u16 = self.pc + 2;
        match ins {
            Instruction::ClearScreen => {
                self.pc = next;
            },
            Instruction::Return => {
                if self.ret_stack.len() == 0 {
                    return Err(CpuError::StackUnderflow);
                }
                let a = self.ret_stack.pop().unwrap();
                self.sp = self.sp - 1;
                self.pc = a;
            },
            Instruction::Jump { addr } => {
                self.pc = addr;
            },
            Instruction::Call { addr } => {
                if self.ret_stack.len() >= STACK_CAPACITY {
                    return Err(CpuError::StackOverflow);
                }
                self.ret_stack.push(next);
                self.sp = self.sp + 1;
                self.pc = addr;
            },
            Instruction::SkipIfEqual { x, byte } => {
                self.pc = if self.vx[x as usize] == byte { next + 2 } else { next };
            },
            Instruction::SkipIfNotEqual { x, byte } => {
                self.pc = if self.vx[x as usize] != byte { next + 2 } else { next };
            },
            Instruction::SkipIfRegistersEqual { x, y } => {
                self.pc = if self.vx[x as usize] == self.vx[y as usize] { next + 2 } else { next };
            },
            Instruction::LoadImmediate { x, byte } => {
                self.vx[x as usize] = byte;
                self.pc = next;
            },
            Instruction::AddImmediate { x, byte } => {
                self.vx[x as usize] = ((self.vx[x as usize] as u16 + byte as u16) % 256) as u8;
                self.pc = next;
            },
            Instruction::Copy { x, y } => {
                self.vx[x as usize] = self.vx[y as usize];
                self.pc = next;
            },
            Instruction::Or { x, y } => {
                self.vx[x as usize] = self.vx[x as usize] | self.vx[y as usize];
                self.pc = next;
            },
            Instruction::And { x, y } => {
                self.vx[x as usize] = self.vx[x as usize] & self.vx[y as usize];
                self.pc = next;
            },
            Instruction::Xor { x, y } => {
                self.vx[x as usize] = self.vx[x as usize] ^ self.vx[y as usize];
                self.pc = next;
            },
            Instruction::AddRegisters { x, y } => {
                let sum: u16 = self.vx[x as usize] as u16 + self.vx[y as usize] as u16;
                self.vx[x as usize] = (sum % 256) as u8;
                self.vx[FLAG] = if sum > 255 { 1 } else { 0 };
                self.pc = next;
            },
            Instruction::Sub { x, y } => {
                let a = self.vx[x as usize];
                let b = self.vx[y as usize];
                self.vx[x as usize] = wrapping_sub(a, b);
                self.vx[FLAG] = if a < b { 0 } else { 1 };
                self.pc = next;
            },
            Instruction::ShiftRight { x } => {
                let a = self.vx[x as usize];
                self.vx[x as usize] = a / 2;
                self.vx[FLAG] = a % 2;
                self.pc = next;
            },
            Instruction::SubN { x, y } => {
                let a = self.vx[x as usize];
                let b = self.vx[y as usize];
                self.vx[x as usize] = wrapping_sub(b, a);
                self.vx[FLAG] = if b < a { 0 } else { 1 };
                self.pc = next;
            },
            Instruction::ShiftLeft { x } => {
                let a = self.vx[x as usize];
                self.vx[x as usize] = ((a as u16 * 2) % 256) as u8;
                self.vx[FLAG] = a / 128;
                self.pc = next;
            },
            Instruction::SkipIfRegistersNotEqual { x, y } => {
                self.pc = if self.vx[x as usize] != self.vx[y as usize] { next + 2 } else { next };
            },
            Instruction::LoadIndex { addr } => {
                self.i = addr;
                self.pc = next;
            },
            Instruction::JumpOffset { addr } => {
                self.pc = addr + self.vx[0] as u16;
            },
            Instruction::Random { x, byte } => {
                self.vx[x as usize] = rnd & byte;
                self.pc = next;
            },
            Instruction::Draw { x, y, n } => {
                if self.i as usize + n as usize > MEMORY_SIZE {
                    return Err(CpuError::OutOfBounds);
                }
                self.vx[FLAG] = if collided { 1 } else { 0 };
                self.pc = next;
            },
            Instruction::SkipIfKeyDown { x } => {
                self.pc = if self.keypad.is_key_down(self.vx[x as usize]) { next + 2 } else { next };
            },
            Instruction::SkipIfKeyUp { x } => {
                self.pc = if self.keypad.is_key_down(self.vx[x as usize]) { next } else { next + 2 };
            },
            Instruction::LoadDelayTimer { x } => {
                self.vx[x as usize] = self.dt;
                self.pc = next;
            },
            Instruction::AwaitKey { x } => {
                match self.keypad.any_key_down() {
                    Some(k) => {
                        self.vx[x as usize] = k;
                        self.pc = next;
                    },
                    None => {},
                }
            },
            Instruction::SetDelayTimer { x } => {
                self.dt = self.vx[x as usize];
                self.pc = next;
            },
            Instruction::AddToIndex { x } => {
                self.i = ((self.i as u32 + self.vx[x as usize] as u32) % 0x10000) as u16;
                self.pc = next;
            },
            Instruction::LoadFontAddress { x } => {
                self.i = self.vx[x as usize] as u16 * GLYPH_SIZE;
                self.pc = next;
            },
            Instruction::StoreBcd { x } => {
                let i = self.i as usize;
                if i + 3 > MEMORY_SIZE {
                    return Err(CpuError::OutOfBounds);
                }
                let b = self.vx[x as usize];
                self.mem[i] = b / 100;
                self.mem[i + 1] = (b / 10) % 10;
                self.mem[i + 2] = b % 10;
                self.pc = next;
            },
            Instruction::StoreRegisters { x } => {
                let i = self.i as usize;
                if i + x as usize + 1 > MEMORY_SIZE {
                    return Err(CpuError::OutOfBounds);
                }
                self.store_registers(x);
                self.pc = next;
            },
            Instruction::LoadRegisters { x } => {
                let i = self.i as usize;
                if i + x as usize + 1 > MEMORY_SIZE {
                    return Err(CpuError::OutOfBounds);
                }
                self.load_registers(x);
                self.pc = next;
            },
            Instruction::Unknown => {
                self.pc = next;
            },
        }
        proof {
            assert(final(self)@ =~= execute_spec(old(self)@, ins, rnd, collided)->Ok_0);
        }
        Ok(())
    }

    /// Writes `vx[0..=x]` to memory from the index register on.
    fn store_registers(&mut self, x: u8)
        requires
            x < 16,
            old(self).i + x + 1 <= MEMORY_SIZE,
        ensures
            final(self)@ == (CpuState { mem: stored(old(self)@.mem, old(self)@.v, old(self).i as int, x as int), ..old(self)@ }),
            final(self).ret_stack == old(self).ret_stack,
            final(self).sp == old(self).sp,
    {
        let i = self.i as usize;
        let mut k: usize = 0;
        while k <= x as usize
            invariant
                x < 16,
                i == self.i,
                i + x + 1 <= MEMORY_SIZE,
                k <= x + 1,
                self.i == old(self).i,
                self.pc == old(self).pc,
                self.vx == old(self).vx,
                self.ret_stack == old(self).ret_stack,
                self.sp == old(self).sp,
                self.dt == old(self).dt,
                self.keypad == old(self).keypad,
                forall|j: int| 0 <= j < MEMORY_SIZE ==> self.mem@[j] == if i <= j < i + k {
                    old(self).vx@[j - i]
                } else {
                    old(self).mem@[j]
                },
            decreases x + 1 - k,
        {
            self.mem[i + k] = self.vx[k];
            k = k + 1;
        }
        assert(self.mem@ =~= stored(old(self)@.mem, old(self)@.v, i as int, x as int));
        assert(self@ =~= CpuState { mem: stored(old(self)@.mem, old(self)@.v, i as int, x as int), ..old(self)@ });
    }

    /// Reads `vx[0..=x]` from memory from the index register on.
    fn load_registers(&mut self, x: u8)
        requires
            x < 16,
            old(self).i + x + 1 <= MEMORY_SIZE,
        ensures
            final(self)@ == (CpuState { v: loaded(old(self)@.v, old(self)@.mem, old(self).i as int, x as int), ..old(self)@ }),
            final(self).ret_stack == old(self).ret_stack,
            final(self).sp == old(self).sp,
    {
        let i = self.i as usize;
        let mut k: usize = 0;
        while k <= x as usize
            invariant
                x < 16,
                i == self.i,
                i + x + 1 <= MEMORY_SIZE,
                k <= x + 1,
                self.i == old(self).i,
                self.pc == old(self).pc,
                self.mem == old(self).mem,
                self.ret_stack == old(self).ret_stack,
                self.sp == old(self).sp,
                self.dt == old(self).dt,
                self.keypad == old(self).keypad,
                forall|j: int| 0 <= j < 16 ==> self.vx@[j] == if j < k {
                    old(self).mem@[i + j]
                } else {
                    old(self).vx@[j]
                },
            decreases x + 1 - k,
        {
            self.vx[k] = self.mem[i + k];
            k = k + 1;
        }
        assert(self.vx@ =~= loaded(old(self)@.v, old(self)@.mem, i as int, x as int));
        assert(self@ =~= CpuState { v: loaded(old(self)@.v, old(self)@.mem, i as int, x as int), ..old(self)@ });
    }
}

/// `(a - b) mod 256`.
fn wrapping_sub(a: u8, b: u8) -> (r: u8)
    ensures
        r == wrap_sub(a, b),
{
    if a >= b {
        a - b
    } else {
        (a as u16 + 256 - b as u16) as u8
    }
}

} // verus!
