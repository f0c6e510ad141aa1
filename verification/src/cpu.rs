use vstd::prelude::*;
use crate::decode::{decode, Instruction};
use crate::fault::Fault;
use crate::font::glyph_table;
use crate::laws::lemma_step_keeps_display_binary;
use crate::machine::{
    alu_flag, alu_value, booted, computed, draw_gfx, draw_regs, draws_random, executed,
    fault_of, flowed, loaded, runs, skips, sprite_cell, sprite_col, sprite_hits, sprite_row,
    step_result, ticked, transferred, word_at, Machine, DISPLAY_CELLS, FLAG, MEMORY_SIZE,
    PROGRAM_START, STACK_DEPTH,
};
use crate::random::random_byte;

verus! {

/// The whole state of the machine. The fields are public: a driver reads the
/// display and the flags, and a host may set up whatever state it needs, as
/// long as the state is one that [`Cpu::wf`] accepts when it is stepped.
#[derive(Clone, Debug, PartialEq, Eq)]
pub struct Cpu {
    /// Address register.
    pub i: u16,
    /// Program counter.
    pub pc: u16,
    /// Return addresses; the first `sp` are in use.
    pub stack: [u16; 16],
    /// Stack depth.
    pub sp: usize,
    /// Registers V0 to VF.
    pub regs: [u8; 16],
    /// Memory, 4096 bytes.
    pub mem: Vec<u8>,
    /// Display, 2048 cells, row after row, each 0 or 1.
    pub gfx: Vec<u8>,
    /// Delay timer.
    pub delay: u8,
    /// Sound timer.
    pub sound: u8,
    /// Whether the last step changed the display.
    pub should_draw: bool,
    /// Whether a tone is to be heard: the sound timer is above zero.
    pub should_beep: bool,
    /// The key that is held down, if any.
    pub key_pressed: Option<u8>,
}

/// What a step asks of the driver.
#[derive(Clone, Copy, Debug, PartialEq, Eq, Structural)]
pub struct Signals {
    /// The display changed and is to be shown again.
    pub redraw: bool,
    /// A tone is to be heard.
    pub tone: bool,
}

/// Whether the sprite pixel that falls on `cell` comes before column `col` of
/// row `row` in drawing order.
spec fn drawn_before(vx: u8, vy: u8, cell: int, row: int, col: int) -> bool {
    sprite_row(vy, cell) < row || (sprite_row(vy, cell) == row && sprite_col(vx, cell) < col)
}

/// Going `d` columns right of `v` and coming back is going nowhere, round a
/// display 64 columns wide; and so the other way round.
proof fn lemma_wrap_64(v: u32, d: u32)
    by (bit_vector)
    requires
        v < 256,
        d < 64,
    ensures
        (((v + d) as u32) % 64 + 64 - v % 64) as u32 % 64 == d,
        ((v + ((d + 64 - v % 64) as u32) % 64) as u32) % 64 == d,
{
}

/// The same for rows, round a display 32 rows high.
proof fn lemma_wrap_32(v: u32, d: u32)
    by (bit_vector)
    requires
        v < 256,
        d < 32,
    ensures
        (((v + d) as u32) % 32 + 32 - v % 32) as u32 % 32 == d,
        ((v + ((d + 32 - v % 32) as u32) % 32) as u32) % 32 == d,
{
}

/// Each pixel of a sprite has a cell of its own on the display.
proof fn lemma_sprite_cell(vx: u8, vy: u8, row: int, col: int)
    requires
        0 <= row < 32,
        0 <= col < 64,
    ensures
        0 <= sprite_cell(vx, vy, row, col) < DISPLAY_CELLS,
        sprite_row(vy, sprite_cell(vx, vy, row, col)) == row,
        sprite_col(vx, sprite_cell(vx, vy, row, col)) == col,
        forall|k: int|
            0 <= k < DISPLAY_CELLS && sprite_row(vy, k) == row && sprite_col(vx, k) == col ==> k
                == sprite_cell(vx, vy, row, col),
{
    let a = (vx + col) % 64;
    let b = (vy + row) % 32;
    let cell = sprite_cell(vx, vy, row, col);
    assert(cell == b * 64 + a);
    assert(cell % 64 == a && cell / 64 == b);
    lemma_wrap_64(vx as u32, col as u32);
    lemma_wrap_32(vy as u32, row as u32);
    assert forall|k: int|
        0 <= k < DISPLAY_CELLS && sprite_row(vy, k) == row && sprite_col(vx, k) == col implies k
        == cell by {
        lemma_wrap_64(vx as u32, (k % 64) as u32);
        lemma_wrap_32(vy as u32, (k / 64) as u32);
        assert(k == (k / 64) * 64 + k % 64);
    }
}

/// What a register-register instruction computes: the value for VX, and the
/// flag where the instruction writes one.
fn alu(n: u8, vx: u8, vy: u8) -> (r: (u8, Option<u8>))
    requires
        n <= 0x7 || n == 0xE,
    ensures
        r.0 == alu_value(n, vx, vy),
        r.1 == alu_flag(n, vx, vy),
{
    match n {
        0x0 => (vy, None),
        0x1 => (vx | vy, None),
        0x2 => (vx & vy, None),
        0x3 => (vx ^ vy, None),
        0x4 => {
            let sum: u16 = vx as u16 + vy as u16;
            ((sum % 256) as u8, Some(if sum > 255 { 1 } else { 0 }))
        },
        0x5 => (vx.wrapping_sub(vy), Some(if vy > vx { 0 } else { 1 })),
        0x6 => {
            assert(vx & 1 == vx % 2) by (bit_vector);
            assert(vx >> 1 == vx / 2) by (bit_vector);
            (vx >> 1, Some(vx & 1))
        },
        0x7 => (vy.wrapping_sub(vx), Some(if vy < vx { 0 } else { 1 })),
        _ => {
            assert(vx >> 7 == vx / 128) by (bit_vector);
            assert(vx << 1 == (vx * 2) % 256) by (bit_vector);
            (vx << 1, Some(vx >> 7))
        },
    }
}

impl View for Cpu {
    type V = Machine;

    open spec fn view(&self) -> Machine {
        Machine {
            i: self.i,
            pc: self.pc,
            stack: self.stack@,
            sp: self.sp as nat,
            regs: self.regs@,
            mem: self.mem@,
            gfx: self.gfx@,
            delay: self.delay,
            sound: self.sound,
            should_draw: self.should_draw,
            should_beep: self.should_beep,
            key_pressed: self.key_pressed,
        }
    }
}

/// The outcome `r` and the state `after` are what one step from `before`
/// gives when the random instruction draws `random`: on success the signals
/// repeat the new state's two flags, and on a fault the state is as it was.
pub open spec fn steps_to(
    before: Machine,
    random: u8,
    after: Machine,
    r: Result<Signals, Fault>,
) -> bool {
    match r {
        Ok(signals) => {
            &&& step_result(before, random) == Ok::<Machine, Fault>(after)
            &&& signals.redraw == after.should_draw
            &&& signals.tone == after.should_beep
        },
        Err(fault) => {
            &&& step_result(before, random) == Err::<Machine, Fault>(fault)
            &&& after == before
        },
    }
}

impl Cpu {
    /// The state is one that the machine can be in.
    pub open spec fn wf(&self) -> bool {
        self@.wf()
    }

    /// The machine at power-on: the glyph table at the start of memory,
    /// everything else zero, execution about to start at 0x200.
    pub fn new() -> (cpu: Cpu)
        ensures
            cpu@ == booted(),
            cpu.wf(),
            cpu@.display_is_binary(),
    {
        let mut mem = Cpu::fontset();
        mem.resize(MEMORY_SIZE, 0);
        let cpu = Cpu {
            i: 0,
            pc: PROGRAM_START,
            sp: 0,
            stack: [0;16],
            regs: [0;16],
            mem,
            gfx: vec![0; DISPLAY_CELLS],
            delay: 0,
            sound: 0,
            should_draw: false,
            should_beep: false,
            key_pressed: None,
        };
        assert(cpu.mem@ =~= booted().mem);
        assert(cpu.gfx@ =~= booted().gfx);
        assert(cpu.stack@ =~= booted().stack);
        assert(cpu.regs@ =~= booted().regs);
        cpu
    }

    /// Copies a program into memory at 0x200. A program that does not fit
    /// below the end of memory is refused, and memory is left as it was.
    pub fn load(&mut self, rom: Vec<u8>) -> (r: Result<(), Fault>)
        requires
            old(self).wf(),
        ensures
            r.is_ok() <==> rom@.len() <= MEMORY_SIZE - PROGRAM_START,
            r.is_err() ==> r == Err::<(), Fault>(Fault::RomTooLarge) && final(self)@ == old(self)@,
            r.is_ok() ==> final(self)@ == (Machine {
                mem: loaded(old(self)@.mem, rom@),
                ..old(self)@
            }),
            final(self).wf(),
    {
        if rom.len() > MEMORY_SIZE - PROGRAM_START as usize {
            return Err(Fault::RomTooLarge);
        }
        let start: usize = PROGRAM_START as usize;
        let mut k: usize = 0;
        while k < rom.len()
            invariant
                k <= rom@.len() <= MEMORY_SIZE - PROGRAM_START,
                start == PROGRAM_START,
                self.mem@.len() == MEMORY_SIZE,
                self@ == (Machine { mem: self.mem@, ..old(self)@ }),
                forall|j: int|
                    0 <= j < MEMORY_SIZE ==> self.mem@[j] == if start <= j < start + k {
                        rom@[j - start]
                    } else {
                        old(self).mem@[j]
                    },
            decreases rom@.len() - k,
        {
            self.mem[start + k] = rom[k];
            k += 1;
        }
        assert(self.mem@ =~= loaded(old(self)@.mem, rom@));
        Ok(())
    }

    /// One timer tick: each timer that is above zero goes down by one. The
    /// driver calls this at its own pace, whatever the pace of the steps.
    pub fn tick_timers(&mut self)
        ensures
            final(self)@ == ticked(old(self)@),
    {
        if self.delay > 0 {
            self.delay -= 1;
        }
        if self.sound > 0 {
            self.sound -= 1;
        }
        self.should_beep = self.sound > 0;
    }

    /// A key of the keypad went down: it replaces whatever key was held. A
    /// value that is no hex digit is no key, and changes nothing.
    pub fn press_key(&mut self, key: u8)
        ensures
            final(self)@ == (Machine {
                key_pressed: if key <= 0xF {
                    Some(key)
                } else {
                    old(self)@.key_pressed
                },
                ..old(self)@
            }),
    {
        if key <= 0xF {
            self.key_pressed = Some(key);
        }
    }

    /// A key went up: no key is held any more, whichever key it was.
    pub fn release_key(&mut self)
        ensures
            final(self)@ == (Machine { key_pressed: None, ..old(self)@ }),
    {
        self.key_pressed = None;
    }

    /// Executes one instruction, drawing a random byte where the instruction
    /// asks for one. What is returned and how the state changes is what
    /// [`Cpu::step_with`] gives: for some byte where one is drawn, and for
    /// any byte, so also for zero, where none is.
    pub fn step(&mut self) -> (r: Result<Signals, Fault>)
        requires
            old(self).wf(),
        ensures
            final(self).wf(),
            exists|random: u8| steps_to(old(self)@, random, final(self)@, r),
            !draws_random(old(self)@) ==> steps_to(old(self)@, 0, final(self)@, r),
            old(self)@.display_is_binary() ==> final(self)@.display_is_binary(),
    {
        let random = if self.next_draws_random() {
            random_byte()
        } else {
            0
        };
        let r = self.step_with(random);
        assert(steps_to(old(self)@, random, self@, r));
        r
    }

    /// Whether the next instruction is the one that draws a random byte.
    fn next_draws_random(&self) -> (b: bool)
        requires
            self.wf(),
        ensures
            b == draws_random(self@),
    {
        self.pc as usize + 1 < self.mem.len() && decode(self.load_16(self.pc)).class == 0xC
    }

    /// Whether the state is one that the machine can be in: memory and
    /// display have their sizes, and the stack depth is within the stack.
    pub fn is_valid(&self) -> (b: bool)
        ensures
            b == self.wf(),
    {
        self.mem.len() == MEMORY_SIZE && self.gfx.len() == DISPLAY_CELLS && self.sp <= STACK_DEPTH
    }

    /// Executes one instruction: fetches the word at the program counter,
    /// moves the program counter past it, and runs it. `random` is the byte
    /// that the random instruction combines with its immediate; no other
    /// instruction reads it. A fault leaves the state as it was.
    pub fn step_with(&mut self, random: u8) -> (r: Result<Signals, Fault>)
        requires
            old(self).wf(),
        ensures
            final(self).wf(),
            steps_to(old(self)@, random, final(self)@, r),
            old(self)@.display_is_binary() ==> final(self)@.display_is_binary(),
    {
        proof {
            if old(self)@.display_is_binary() && step_result(old(self)@, random) is Ok {
                lemma_step_keeps_display_binary(old(self)@, random);
            }
        }
        if self.pc as usize + 1 >= self.mem.len() {
            return Err(Fault::MemoryOutOfBounds);
        }
        let word = self.load_16(self.pc);
        let ins = decode(word);
        if let Some(fault) = self.check(&ins, word) {
            return Err(fault);
        }
        self.run(&ins, random);
        self.should_beep = self.sound > 0;
        Ok(Signals { redraw: self.should_draw, tone: self.should_beep })
    }

    /// Runs an instruction that raises no fault in this state: moves the
    /// program counter past it and applies its effect.
    fn run(&mut self, ins: &Instruction, random: u8)
        requires
            old(self).wf(),
            ins.wf(),
            old(self).pc + 1 < MEMORY_SIZE,
            runs(old(self)@, *ins),
        ensures
            final(self).wf(),
            final(self)@ == executed(old(self)@, *ins, random),
    {
        self.should_draw = false;
        self.pc = self.pc + 2;
        match ins.class {
            0x0 | 0x1 | 0x2 | 0xB => {
                self.flow(ins);
            },
            0x3 | 0x4 | 0x5 | 0x9 | 0xE => {
                if self.skips(ins) {
                    self.pc += 2;
                }
            },
            0x6 | 0x7 | 0x8 | 0xC => {
                self.compute(ins, random);
            },
            0xA => {
                self.i = ins.nnn;
            },
            0xD => {
                self.draw(ins);
            },
            _ => {
                self.transfer(ins);
            },
        }
    }

    /// Classes 0, 1, 2 and B: clear the display or return, jump, call, and
    /// jump with V0 added.
    fn flow(&mut self, ins: &Instruction)
        requires
            old(self).wf(),
            ins.wf(),
            ins.class == 0x0 || ins.class == 0x1 || ins.class == 0x2 || ins.class == 0xB,
            runs(old(self)@, *ins),
        ensures
            final(self).wf(),
            final(self)@ == flowed(old(self)@, *ins),
    {
        match ins.class {
            0x0 => {
                if ins.n == 0 {
                    self.gfx = vec![0; DISPLAY_CELLS];
                    self.should_draw = true;
                    assert(self.gfx@ =~= flowed(old(self)@, *ins).gfx);
                } else {
                    self.sp -= 1;
                    self.pc = self.stack[self.sp];
                }
            },
            0x1 => {
                self.pc = ins.nnn;
            },
            0x2 => {
                self.stack[self.sp] = self.pc;
                self.sp += 1;
                self.pc = ins.nnn;
            },
            _ => {
                self.pc = ins.nnn + self.regs[0] as u16;
            },
        }
    }

    /// Classes 3, 4, 5, 9 and E: whether the next instruction is skipped.
    fn skips(&self, ins: &Instruction) -> (b: bool)
        requires
            self.wf(),
            ins.wf(),
        ensures
            b == skips(self@, *ins),
    {
        let vx = self.regs[ins.x];
        let vy = self.regs[ins.y];
        match ins.class {
            0x3 => vx == ins.nn,
            0x4 => vx != ins.nn,
            0x5 => vx == vy,
            0x9 => vx != vy,
            _ => {
                let held = match self.key_pressed {
                    Some(key) => key == vx,
                    None => false,
                };
                held == (ins.nn == 0x9E)
            },
        }
    }

    /// Classes 6, 7, 8 and C: a new value for VX and, from some
    /// register-register instructions, for the flag.
    fn compute(&mut self, ins: &Instruction, random: u8)
        requires
            ins.wf(),
            ins.class == 0x8 ==> ins.n <= 0x7 || ins.n == 0xE,
        ensures
            final(self)@ == (Machine {
                regs: computed(old(self)@.regs, *ins, random),
                ..old(self)@
            }),
    {
        let x = ins.x;
        let vx = self.regs[x];
        match ins.class {
            0x6 => {
                self.regs[x] = ins.nn;
            },
            0x7 => {
                self.regs[x] = vx.wrapping_add(ins.nn);
            },
            0x8 => {
                let (value, flag) = alu(ins.n, vx, self.regs[ins.y]);
                if let Some(f) = flag {
                    self.regs[FLAG] = f;
                }
                self.regs[x] = value;
            },
            _ => {
                self.regs[x] = ins.nn & random;
            },
        }
    }

    /// The fault that the instruction would raise in this state, looked for
    /// before anything is changed.
    fn check(&self, ins: &Instruction, word: u16) -> (r: Option<Fault>)
        requires
            self.wf(),
            ins.wf(),
        ensures
            r == fault_of(self@, *ins, word),
    {
        let i = self.i as usize;
        match ins.class {
            0x0 => {
                if ins.n != 0 && self.sp == 0 {
                    return Some(Fault::StackUnderflow);
                }
            },
            0x2 => {
                if self.sp >= STACK_DEPTH {
                    return Some(Fault::StackOverflow);
                }
            },
            0x8 => {
                if ins.n > 0x7 && ins.n != 0xE {
                    return Some(Fault::InvalidOpcode(word));
                }
            },
            0xD => {
                if ins.n > 0 && i + ins.n as usize > self.mem.len() {
                    return Some(Fault::MemoryOutOfBounds);
                }
            },
            0xE => {
                if ins.nn != 0x9E && ins.nn != 0xA1 {
                    return Some(Fault::InvalidOpcode(word));
                }
            },
            0xF => {
                match ins.nn {
                    0x07 | 0x15 | 0x18 | 0x1E | 0x29 => {},
                    0x33 => {
                        if i + 2 >= self.mem.len() {
                            return Some(Fault::MemoryOutOfBounds);
                        }
                    },
                    0x55 | 0x65 => {
                        if i + ins.x >= self.mem.len() {
                            return Some(Fault::MemoryOutOfBounds);
                        }
                    },
                    _ => {
                        return Some(Fault::InvalidOpcode(word));
                    },
                }
            },
            _ => {},
        }
        None
    }

    /// The instructions of class F: transfers between VX and the timers, the
    /// index register, and memory at the index register.
    fn transfer(&mut self, ins: &Instruction)
        requires
            old(self).wf(),
            ins.wf(),
            ins.class == 0xF,
            runs(old(self)@, *ins),
        ensures
            final(self).wf(),
            final(self)@ == transferred(old(self)@, *ins),
    {
        let x = ins.x;
        let vx = self.regs[x];
        let i = self.i as usize;
        match ins.nn {
            0x07 => {
                self.regs[x] = self.delay;
            },
            0x15 => {
                self.delay = vx;
            },
            0x18 => {
                self.sound = vx;
            },
            0x1E => {
                self.i = self.i.wrapping_add(vx as u16);
            },
            0x29 => {
                self.i = vx as u16 * 5;
            },
            0x33 => {
                self.mem[i] = vx / 100;
                self.mem[i + 1] = (vx / 10) % 10;
                self.mem[i + 2] = (vx % 100) % 10;
            },
            0x55 => {
                let mut k: usize = 0;
                while k <= x
                    invariant
                        k <= x + 1,
                        x < 16,
                        i + x < MEMORY_SIZE,
                        self.mem@.len() == MEMORY_SIZE,
                        self@ == (Machine { mem: self.mem@, ..old(self)@ }),
                        forall|j: int|
                            0 <= j < MEMORY_SIZE ==> self.mem@[j] == if i <= j < i + k {
                                old(self).regs@[j - i]
                            } else {
                                old(self).mem@[j]
                            },
                    decreases x + 1 - k,
                {
                    self.mem[i + k] = self.regs[k];
                    k += 1;
                }
                assert(self.mem@ =~= transferred(old(self)@, *ins).mem);
            },
            _ => {
                let mut k: usize = 0;
                while k <= x
                    invariant
                        k <= x + 1,
                        x < 16,
                        i + x < MEMORY_SIZE,
                        self.mem@.len() == MEMORY_SIZE,
                        self@ == (Machine { regs: self.regs@, ..old(self)@ }),
                        forall|j: int|
                            0 <= j < 16 ==> self.regs@[j] == if j < k {
                                old(self).mem@[i + j]
                            } else {
                                old(self).regs@[j]
                            },
                    decreases x + 1 - k,
                {
                    self.regs[k] = self.mem[i + k];
                    k += 1;
                }
                assert(self.regs@ =~= transferred(old(self)@, *ins).regs);
            },
        }
    }

    /// Draws the sprite of `n` rows that starts at the index register at the
    /// coordinates in VX and VY, flipping the cell under each set pixel, and
    /// leaves in the flag register whether a lit cell went dark.
    fn draw(&mut self, ins: &Instruction)
        requires
            old(self).wf(),
            ins.wf(),
            ins.n == 0 || old(self).i + ins.n <= MEMORY_SIZE,
        ensures
            final(self).wf(),
            final(self)@ == (Machine {
                regs: draw_regs(old(self)@, *ins),
                gfx: draw_gfx(old(self)@, *ins),
                should_draw: true,
                ..old(self)@
            }),
    {
        self.regs[FLAG] = 0;
        let vx = self.regs[ins.x];
        let vy = self.regs[ins.y];
        let base = self.i as usize;
        let height = ins.n;
        self.should_draw = true;
        let ghost start = self@;
        let ghost mem = self.mem@;
        let ghost i = self.i;
        let mut hit = false;
        let mut row: u8 = 0;
        while row < height
            invariant
                row <= height < 16,
                height == 0 || base + height <= MEMORY_SIZE,
                base == i,
                start.wf(),
                start.mem == mem,
                self@ == (Machine { gfx: self.gfx@, ..start }),
                self.gfx@.len() == DISPLAY_CELLS,
                forall|k: int|
                    0 <= k < DISPLAY_CELLS ==> #[trigger] self.gfx@[k] == if sprite_hits(
                        mem,
                        i,
                        height,
                        vx,
                        vy,
                        k,
                    ) && drawn_before(vx, vy, k, row as int, 0) {
                        start.gfx[k] ^ 1u8
                    } else {
                        start.gfx[k]
                    },
                hit <==> exists|k: int|
                    0 <= k < DISPLAY_CELLS && sprite_hits(mem, i, height, vx, vy, k)
                        && drawn_before(vx, vy, k, row as int, 0) && start.gfx[k] == 1,
            decreases height - row,
        {
            let pixel = self.mem[base + row as usize];
            let mut col: u8 = 0;
            while col < 8
                invariant
                    row < height < 16,
                    col <= 8,
                    base + height <= MEMORY_SIZE,
                    base == i,
                    start.wf(),
                    start.mem == mem,
                    pixel == mem[i + row],
                    self@ == (Machine { gfx: self.gfx@, ..start }),
                    self.gfx@.len() == DISPLAY_CELLS,
                    forall|k: int|
                        0 <= k < DISPLAY_CELLS ==> #[trigger] self.gfx@[k] == if sprite_hits(
                            mem,
                            i,
                            height,
                            vx,
                            vy,
                            k,
                        ) && drawn_before(vx, vy, k, row as int, col as int) {
                            start.gfx[k] ^ 1u8
                        } else {
                            start.gfx[k]
                        },
                    hit <==> exists|k: int|
                        0 <= k < DISPLAY_CELLS && sprite_hits(mem, i, height, vx, vy, k)
                            && drawn_before(vx, vy, k, row as int, col as int) && start.gfx[k]
                            == 1,
                decreases 8 - col,
            {
                proof {
                    lemma_sprite_cell(vx, vy, row as int, col as int);
                }
                if pixel & (0x80u8 >> col) != 0 {
                    let offset = (vx as usize + col as usize) % 64 + ((vy as usize + row as usize)
                        % 32) * 64;
                    if self.gfx[offset] == 1 {
                        hit = true;
                    }
                    self.gfx[offset] = self.gfx[offset] ^ 1;
                }
                col += 1;
            }
            row += 1;
        }
        if hit {
            self.regs[FLAG] = 1;
        }
        assert(self.gfx@ =~= draw_gfx(old(self)@, *ins));
        assert(self.regs@ =~= draw_regs(old(self)@, *ins));
    }

    /// Reads the big-endian 16-bit value at `address`.
    pub fn load_16(&self, address: u16) -> (value: u16)
        requires
            address + 1 < self.mem@.len(),
        ensures
            value == word_at(self.mem@, address as int),
    {
        let hi: u16 = self.mem[address as usize] as u16;
        let lo: u16 = self.mem[address as usize + 1] as u16;
        assert((hi << 8) == hi * 256) by (bit_vector)
            requires
                hi < 256,
        ;
        (hi << 8) + lo
    }

    /// Writes `value` at `address`, high byte first.
    pub fn store_16(&mut self, address: u16, value: u16)
        requires
            address + 1 < old(self).mem@.len(),
        ensures
            final(self)@ == (Machine {
                mem: old(self).mem@.update(address as int, (value / 256) as u8).update(
                    address + 1,
                    (value % 256) as u8,
                ),
                ..old(self)@
            }),
    {
        assert(value >> 8 == value / 256) by (bit_vector);
        assert(value & 0xFF == value % 256) by (bit_vector);
        self.mem[address as usize] = (value >> 8) as u8;
        self.mem[address as usize + 1] = (value & 0xFF) as u8;
    }

    /// The built-in glyphs, as they stand at the start of memory.
    pub fn fontset() -> (font: Vec<u8>)
        ensures
            font@ == glyph_table(),
    {
        let font = vec![
            0xF0, 0x90, 0x90, 0x90, 0xF0,
            0x20, 0x60, 0x20, 0x20, 0x70,
            0xF0, 0x10, 0xF0, 0x80, 0xF0,
            0xF0, 0x10, 0xF0, 0x10, 0xF0,
            0x90, 0x90, 0xF0, 0x10, 0x10,
            0xF0, 0x80, 0xF0, 0x10, 0xF0,
            0xF0, 0x80, 0xF0, 0x90, 0xF0,
            0xF0, 0x10, 0x20, 0x40, 0x40,
            0xF0, 0x90, 0xF0, 0x90, 0xF0,
            0xF0, 0x90, 0xF0, 0x10, 0xF0,
            0xF0, 0x90, 0xF0, 0x90, 0x90,
            0xE0, 0x90, 0xE0, 0x90, 0xE0,
            0xF0, 0x80, 0x80, 0x80, 0xF0,
            0xE0, 0x90, 0x90, 0x90, 0xE0,
            0xF0, 0x80, 0xF0, 0x80, 0xF0,
            0xF0, 0x80, 0xF0, 0x80, 0x80,
        ];
        assert(font@ =~= glyph_table());
        font
    }
}

} // verus!
