use vstd::prelude::*;
use crate::decode::{decoded, Instruction};
use crate::fault::Fault;
use crate::font::{glyph_table, FONT_BYTES};

verus! {

/// Bytes of memory.
pub const MEMORY_SIZE: usize = 0x1000;

/// Where a program is loaded, and where execution starts.
pub const PROGRAM_START: u16 = 0x200;

/// Cells in one row of the display.
pub const DISPLAY_WIDTH: usize = 64;

/// Rows of the display.
pub const DISPLAY_HEIGHT: usize = 32;

/// Cells of the display, row after row.
pub const DISPLAY_CELLS: usize = 2048;

/// Return addresses that the call stack can hold.
pub const STACK_DEPTH: usize = 16;

/// The index of the register that doubles as carry, borrow and collision flag.
pub const FLAG: usize = 0xF;

/// The machine as a mathematical value: what [`crate::Cpu`] stands for.
pub struct Machine {
    pub i: u16,
    pub pc: u16,
    pub stack: Seq<u16>,
    pub sp: nat,
    pub regs: Seq<u8>,
    pub mem: Seq<u8>,
    pub gfx: Seq<u8>,
    pub delay: u8,
    pub sound: u8,
    pub should_draw: bool,
    pub should_beep: bool,
    pub key_pressed: Option<u8>,
}

impl Machine {
    /// The sizes are the machine's own, and the stack depth is within the
    /// stack.
    pub open spec fn wf(self) -> bool {
        &&& self.stack.len() == STACK_DEPTH
        &&& self.regs.len() == 16
        &&& self.mem.len() == MEMORY_SIZE
        &&& self.gfx.len() == DISPLAY_CELLS
        &&& self.sp <= STACK_DEPTH
    }

    /// Every cell of the display is 0 or 1.
    pub open spec fn display_is_binary(self) -> bool {
        forall|k: int| 0 <= k < self.gfx.len() ==> self.gfx[k] == 0 || self.gfx[k] == 1
    }
}

/// The machine at power-on: the glyph table at the start of memory and zero
/// everywhere else, an empty stack, a dark display, both timers at rest, no
/// key held, and the program counter at the load address.
pub open spec fn booted() -> Machine {
    Machine {
        i: 0,
        pc: PROGRAM_START,
        stack: Seq::new(STACK_DEPTH as nat, |k: int| 0u16),
        sp: 0,
        regs: Seq::new(16, |k: int| 0u8),
        mem: Seq::new(
            MEMORY_SIZE as nat,
            |k: int|
                if k < FONT_BYTES {
                    glyph_table()[k]
                } else {
                    0u8
                },
        ),
        gfx: Seq::new(DISPLAY_CELLS as nat, |k: int| 0u8),
        delay: 0,
        sound: 0,
        should_draw: false,
        should_beep: false,
        key_pressed: None,
    }
}

/// Memory after the program `rom` is copied to the load address.
pub open spec fn loaded(mem: Seq<u8>, rom: Seq<u8>) -> Seq<u8> {
    Seq::new(
        mem.len(),
        |k: int|
            if PROGRAM_START <= k < PROGRAM_START + rom.len() {
                rom[k - PROGRAM_START]
            } else {
                mem[k]
            },
    )
}

/// The big-endian 16-bit value at `addr` and `addr + 1`.
pub open spec fn word_at(mem: Seq<u8>, addr: int) -> u16 {
    (mem[addr] * 256 + mem[addr + 1]) as u16
}

/// Whether the fields are those of a defined instruction. Class 0 clears the
/// display when its low nibble is 0 and returns otherwise; classes 5 and 9 do
/// not look at their low nibble. There is no instruction that waits for a key.
pub open spec fn recognized(ins: Instruction) -> bool {
    if ins.class == 0x8 {
        ins.n <= 0x7 || ins.n == 0xE
    } else if ins.class == 0xE {
        ins.nn == 0x9E || ins.nn == 0xA1
    } else if ins.class == 0xF {
        ins.nn == 0x07 || ins.nn == 0x15 || ins.nn == 0x18 || ins.nn == 0x1E || ins.nn == 0x29
            || ins.nn == 0x33 || ins.nn == 0x55 || ins.nn == 0x65
    } else {
        ins.class <= 0xD
    }
}

/// Whether the instruction would read or write past the end of memory: a
/// sprite's rows, the three decimal digits, or the registers V0..VX at I.
pub open spec fn reaches_past_memory(m: Machine, ins: Instruction) -> bool {
    ||| ins.class == 0xD && ins.n > 0 && m.i + ins.n > m.mem.len()
    ||| ins.class == 0xF && ins.nn == 0x33 && m.i + 2 >= m.mem.len()
    ||| ins.class == 0xF && (ins.nn == 0x55 || ins.nn == 0x65) && m.i + ins.x >= m.mem.len()
}

/// Whether the instruction is a return with nothing on the stack.
pub open spec fn underflows(m: Machine, ins: Instruction) -> bool {
    ins.class == 0x0 && ins.n != 0 && m.sp == 0
}

/// Whether the instruction is a call with the stack full.
pub open spec fn overflows(m: Machine, ins: Instruction) -> bool {
    ins.class == 0x2 && m.sp >= STACK_DEPTH
}

/// The fault that the instruction `ins`, decoded from `word`, raises in state
/// `m`, if any.
pub open spec fn fault_of(m: Machine, ins: Instruction, word: u16) -> Option<Fault> {
    if !recognized(ins) {
        Some(Fault::InvalidOpcode(word))
    } else if underflows(m, ins) {
        Some(Fault::StackUnderflow)
    } else if overflows(m, ins) {
        Some(Fault::StackOverflow)
    } else if reaches_past_memory(m, ins) {
        Some(Fault::MemoryOutOfBounds)
    } else {
        None
    }
}

/// Whether the instruction raises no fault in state `m`.
pub open spec fn runs(m: Machine, ins: Instruction) -> bool {
    recognized(ins) && !underflows(m, ins) && !overflows(m, ins) && !reaches_past_memory(m, ins)
}

/// Whether the instruction that a step from `m` would fetch is the one that
/// draws a random byte.
pub open spec fn draws_random(m: Machine) -> bool {
    m.pc + 1 < m.mem.len() && decoded(word_at(m.mem, m.pc as int)).class == 0xC
}

/// The value that a register-register instruction leaves in VX. Shifts work
/// on VX alone.
pub open spec fn alu_value(n: u8, vx: u8, vy: u8) -> u8 {
    if n == 0x0 {
        vy
    } else if n == 0x1 {
        vx | vy
    } else if n == 0x2 {
        vx & vy
    } else if n == 0x3 {
        vx ^ vy
    } else if n == 0x4 {
        ((vx + vy) % 256) as u8
    } else if n == 0x5 {
        ((vx - vy + 256) % 256) as u8
    } else if n == 0x6 {
        vx / 2
    } else if n == 0x7 {
        ((vy - vx + 256) % 256) as u8
    } else {
        ((vx * 2) % 256) as u8
    }
}

/// The value that a register-register instruction leaves in the flag
/// register, if it writes the flag: the carry of an addition, 1 for a
/// subtraction that does not borrow, the bit that a shift pushes out.
pub open spec fn alu_flag(n: u8, vx: u8, vy: u8) -> Option<u8> {
    if n == 0x4 {
        Some(if vx + vy > 255 { 1u8 } else { 0u8 })
    } else if n == 0x5 {
        Some(if vx >= vy { 1u8 } else { 0u8 })
    } else if n == 0x6 {
        Some(vx % 2)
    } else if n == 0x7 {
        Some(if vy >= vx { 1u8 } else { 0u8 })
    } else if n == 0xE {
        Some(vx / 128)
    } else {
        None
    }
}

/// The registers after a register-register instruction. Both operands are
/// read first; then the flag is written, then VX, so that VX wins where X is
/// the flag register itself.
pub open spec fn alu_regs(regs: Seq<u8>, ins: Instruction) -> Seq<u8> {
    let vx = regs[ins.x as int];
    let vy = regs[ins.y as int];
    let flagged = match alu_flag(ins.n, vx, vy) {
        Some(f) => regs.update(FLAG as int, f),
        None => regs,
    };
    flagged.update(ins.x as int, alu_value(ins.n, vx, vy))
}

/// Whether bit `col` of a sprite row is set. Column 0 is the leftmost pixel,
/// the most significant bit.
pub open spec fn sprite_bit(row: u8, col: u8) -> bool {
    row & (0x80u8 >> col) != 0
}

/// The display cell on which column `col` of row `row` of a sprite falls when
/// the sprite is drawn at (`vx`, `vy`). Coordinates wrap round both edges of
/// the display.
pub open spec fn sprite_cell(vx: u8, vy: u8, row: int, col: int) -> int {
    ((vy + row) % 32) * 64 + (vx + col) % 64
}

/// The sprite column that falls on `cell` when the sprite's left edge is at
/// `vx`: how far right of the edge the cell's column is, round the display.
pub open spec fn sprite_col(vx: u8, cell: int) -> int {
    (cell % 64 + 64 - vx % 64) % 64
}

/// The sprite row that falls on `cell` when the sprite's top edge is at `vy`.
pub open spec fn sprite_row(vy: u8, cell: int) -> int {
    (cell / 64 + 32 - vy % 32) % 32
}

/// Whether the sprite of `n` rows that starts at `mem[i]`, drawn at
/// (`vx`, `vy`), has a set pixel on `cell`. A sprite is 8 columns wide and at
/// most 15 rows high, so no two of its pixels fall on one cell.
pub open spec fn sprite_hits(mem: Seq<u8>, i: u16, n: u8, vx: u8, vy: u8, cell: int) -> bool {
    let col = sprite_col(vx, cell);
    let row = sprite_row(vy, cell);
    col < 8 && row < n && sprite_bit(mem[i + row], col as u8)
}

/// The display after the sprite is drawn: each cell under a set pixel is
/// flipped, every other cell is kept.
pub open spec fn drawn(gfx: Seq<u8>, mem: Seq<u8>, i: u16, n: u8, vx: u8, vy: u8) -> Seq<u8> {
    Seq::new(
        gfx.len(),
        |k: int|
            if sprite_hits(mem, i, n, vx, vy, k) {
                gfx[k] ^ 1u8
            } else {
                gfx[k]
            },
    )
}

/// Whether drawing the sprite turns off a cell that was on.
pub open spec fn collides(gfx: Seq<u8>, mem: Seq<u8>, i: u16, n: u8, vx: u8, vy: u8) -> bool {
    exists|k: int| 0 <= k < gfx.len() && sprite_hits(mem, i, n, vx, vy, k) && gfx[k] == 1
}

/// The registers after a draw. The flag is cleared before the coordinates are
/// read, so a sprite placed by the flag register is placed at 0.
pub open spec fn draw_regs(m: Machine, ins: Instruction) -> Seq<u8> {
    let cleared = m.regs.update(FLAG as int, 0u8);
    let vx = cleared[ins.x as int];
    let vy = cleared[ins.y as int];
    cleared.update(
        FLAG as int,
        if collides(m.gfx, m.mem, m.i, ins.n, vx, vy) {
            1u8
        } else {
            0u8
        },
    )
}

/// The display after a draw.
pub open spec fn draw_gfx(m: Machine, ins: Instruction) -> Seq<u8> {
    let cleared = m.regs.update(FLAG as int, 0u8);
    drawn(m.gfx, m.mem, m.i, ins.n, cleared[ins.x as int], cleared[ins.y as int])
}

/// Memory after the three decimal digits of `value` are stored at `i`,
/// hundreds first.
pub open spec fn bcd_stored(mem: Seq<u8>, i: int, value: u8) -> Seq<u8> {
    mem.update(i, value / 100).update(i + 1, (value / 10) % 10).update(i + 2, value % 10)
}

/// Memory after the registers V0..VX are stored at `i`.
pub open spec fn regs_dumped(mem: Seq<u8>, regs: Seq<u8>, i: int, x: int) -> Seq<u8> {
    Seq::new(
        mem.len(),
        |k: int|
            if i <= k <= i + x {
                regs[k - i]
            } else {
                mem[k]
            },
    )
}

/// The registers after V0..VX are loaded from memory at `i`.
pub open spec fn regs_loaded(mem: Seq<u8>, regs: Seq<u8>, i: int, x: int) -> Seq<u8> {
    Seq::new(
        regs.len(),
        |k: int|
            if k <= x {
                mem[i + k]
            } else {
                regs[k]
            },
    )
}

/// The state once the instruction at the program counter has been fetched:
/// the program counter is past it, and the redraw flag is down. Every
/// instruction works on this state, so that a call saves the address of the
/// instruction after it and a skip is a second move of the same size.
pub open spec fn advanced(m: Machine) -> Machine {
    Machine { pc: (m.pc + 2) as u16, should_draw: false, ..m }
}

/// Classes 0, 1, 2 and B: clear the display or return, jump, call, and jump
/// with V0 added.
pub open spec fn flowed(m: Machine, ins: Instruction) -> Machine {
    if ins.class == 0x0 {
        if ins.n == 0 {
            Machine { gfx: Seq::new(DISPLAY_CELLS as nat, |k: int| 0u8), should_draw: true, ..m }
        } else {
            Machine { pc: m.stack[m.sp - 1], sp: (m.sp - 1) as nat, ..m }
        }
    } else if ins.class == 0x1 {
        Machine { pc: ins.nnn, ..m }
    } else if ins.class == 0x2 {
        Machine { pc: ins.nnn, stack: m.stack.update(m.sp as int, m.pc), sp: m.sp + 1, ..m }
    } else {
        Machine { pc: (ins.nnn + m.regs[0]) as u16, ..m }
    }
}

/// Classes 3, 4, 5, 9 and E: whether the next instruction is skipped. VX is
/// compared with the immediate, with VY, or with the key that is held; with
/// no key held, no key is equal to VX.
pub open spec fn skips(m: Machine, ins: Instruction) -> bool {
    let vx = m.regs[ins.x as int];
    let vy = m.regs[ins.y as int];
    if ins.class == 0x3 {
        vx == ins.nn
    } else if ins.class == 0x4 {
        vx != ins.nn
    } else if ins.class == 0x5 {
        vx == vy
    } else if ins.class == 0x9 {
        vx != vy
    } else if ins.nn == 0x9E {
        m.key_pressed == Some(vx)
    } else {
        m.key_pressed != Some(vx)
    }
}

/// Classes 6, 7, 8 and C: the registers after a load, an addition of the
/// immediate (which wraps and leaves the flag alone), a register-register
/// instruction, or a random byte masked by the immediate.
pub open spec fn computed(regs: Seq<u8>, ins: Instruction, random: u8) -> Seq<u8> {
    let vx = regs[ins.x as int];
    if ins.class == 0x6 {
        regs.update(ins.x as int, ins.nn)
    } else if ins.class == 0x7 {
        regs.update(ins.x as int, ((vx + ins.nn) % 256) as u8)
    } else if ins.class == 0x8 {
        alu_regs(regs, ins)
    } else {
        regs.update(ins.x as int, ins.nn & random)
    }
}

/// Class F: VX from the delay timer, a timer from VX, VX added to the index
/// register (which wraps at 16 bits), the index register at the glyph for
/// VX, the decimal digits of VX to memory, and V0..VX to and from memory.
pub open spec fn transferred(m: Machine, ins: Instruction) -> Machine {
    let vx = m.regs[ins.x as int];
    if ins.nn == 0x07 {
        Machine { regs: m.regs.update(ins.x as int, m.delay), ..m }
    } else if ins.nn == 0x15 {
        Machine { delay: vx, ..m }
    } else if ins.nn == 0x18 {
        Machine { sound: vx, ..m }
    } else if ins.nn == 0x1E {
        Machine { i: ((m.i + vx) % 0x10000) as u16, ..m }
    } else if ins.nn == 0x29 {
        Machine { i: (vx * 5) as u16, ..m }
    } else if ins.nn == 0x33 {
        Machine { mem: bcd_stored(m.mem, m.i as int, vx), ..m }
    } else if ins.nn == 0x55 {
        Machine { mem: regs_dumped(m.mem, m.regs, m.i as int, ins.x as int), ..m }
    } else {
        Machine { regs: regs_loaded(m.mem, m.regs, m.i as int, ins.x as int), ..m }
    }
}

/// What the instruction `ins` does to the advanced state `m`, where it raises
/// no fault. `random` is the byte that the random instruction draws.
pub open spec fn effect(m: Machine, ins: Instruction, random: u8) -> Machine {
    if ins.class == 0x0 || ins.class == 0x1 || ins.class == 0x2 || ins.class == 0xB {
        flowed(m, ins)
    } else if ins.class == 0x3 || ins.class == 0x4 || ins.class == 0x5 || ins.class == 0x9
        || ins.class == 0xE {
        Machine {
            pc: if skips(m, ins) {
                (m.pc + 2) as u16
            } else {
                m.pc
            },
            ..m
        }
    } else if ins.class == 0x6 || ins.class == 0x7 || ins.class == 0x8 || ins.class == 0xC {
        Machine { regs: computed(m.regs, ins, random), ..m }
    } else if ins.class == 0xA {
        Machine { i: ins.nnn, ..m }
    } else if ins.class == 0xD {
        Machine { regs: draw_regs(m, ins), gfx: draw_gfx(m, ins), should_draw: true, ..m }
    } else {
        transferred(m, ins)
    }
}

/// The state after the instruction `ins`, fetched at `m.pc`, has run in state
/// `m`, where it raises no fault. The tone flag is not set here.
pub open spec fn executed(m: Machine, ins: Instruction, random: u8) -> Machine {
    effect(advanced(m), ins, random)
}

/// One step of the machine: fetch the word at the program counter, decode
/// it, and run it. A fault leaves no state behind; a step that succeeds also
/// sets the tone flag, which is on while the sound timer is above zero.
pub open spec fn step_result(m: Machine, random: u8) -> Result<Machine, Fault> {
    if m.pc + 1 >= m.mem.len() {
        Err(Fault::MemoryOutOfBounds)
    } else {
        let word = word_at(m.mem, m.pc as int);
        let ins = decoded(word);
        match fault_of(m, ins, word) {
            Some(fault) => Err(fault),
            None => {
                let after = executed(m, ins, random);
                Ok(Machine { should_beep: after.sound > 0, ..after })
            },
        }
    }
}

/// The state after one timer tick: each timer that is above zero goes down by
/// one, and the tone flag follows the sound timer.
pub open spec fn ticked(m: Machine) -> Machine {
    let sound = if m.sound > 0 { (m.sound - 1) as u8 } else { 0u8 };
    Machine {
        delay: if m.delay > 0 { (m.delay - 1) as u8 } else { 0u8 },
        sound,
        should_beep: sound > 0,
        ..m
    }
}

} // verus!
