use vstd::prelude::*;
use crate::decode::{Instruction, decoded};
use crate::error::EngineError;

verus! {

/// Bytes of addressable memory.
pub const MEMORY_SIZE: usize = 4096;

/// Bytes of the built-in font at the bottom of memory.
pub const FONT_SIZE: usize = 80;

/// Address at which a program image is loaded and execution starts.
pub const PROGRAM_START: usize = 0x200;

/// Framebuffer columns.
pub const SCREEN_WIDTH: usize = 64;

/// Framebuffer rows.
pub const SCREEN_HEIGHT: usize = 32;

/// Pixels in the framebuffer.
pub const SCREEN_SIZE: usize = 2048;

/// Return addresses the call stack can hold.
pub const STACK_DEPTH: usize = 16;

/// The sixteen hexadecimal glyphs, five rows of four pixels each.
pub open spec fn font() -> Seq<u8> {
    seq![
        0xF0, 0x90, 0x90, 0x90, 0xF0,
        0x20, 0x60, 0x20, 0x20, 0x70,
        0xF0, 0x10, 0xF0, 0x80, 0xF0,
        0xF0, 0x10, 0xF0, 0x10, 0xF0,
        0x90, 0x90, 0xF0, 0x10, 0x10,
        0xF0, 0x80, 0xF0, 0x10, 0xF0,
        0xF0, 0x80, 0xF0, 0x90, 0xF0,
        0xF0, 0x10, 0x20, 0x40, 0x40,
        0xF0, 0x90, 0xF0, 0x90, 0xF0,
        0xF0, 0x90, 0xF0, 0x10, 0xF0,
        0xF0, 0x90, 0xF0, 0x90, 0x90,
        0xE0, 0x90, 0xE0, 0x90, 0xE0,
        0xF0, 0x80, 0x80, 0x80, 0xF0,
        0xE0, 0x90, 0x90, 0x90, 0xE0,
        0xF0, 0x80, 0xF0, 0x80, 0xF0,
        0xF0, 0x80, 0xF0, 0x80, 0x80,
    ]
}

/// The abstract state of the virtual machine.
///
/// The framebuffer is stored row by row: pixel `(x, y)` is `gfx[y * 64 + x]`.
/// The stack holds the live return addresses, oldest first.
#[verifier::ext_equal]
pub struct Machine {
    pub memory: Seq<u8>,
    pub v: Seq<u8>,
    pub i: u16,
    pub pc: u16,
    pub gfx: Seq<bool>,
    pub delay_timer: u8,
    pub sound_timer: u8,
    pub stack: Seq<u16>,
    pub keys: Seq<bool>,
}

impl Machine {
    /// Sizes are fixed, the stack is within its depth, and the font is in place.
    pub open spec fn wf(self) -> bool {
        &&& self.memory.len() == MEMORY_SIZE
        &&& self.v.len() == 16
        &&& self.gfx.len() == SCREEN_SIZE
        &&& self.stack.len() <= STACK_DEPTH
        &&& self.keys.len() == 16
        &&& forall|a: int| 0 <= a < FONT_SIZE ==> #[trigger] self.memory[a] == font()[a]
    }

    pub open spec fn with_v(self, v: Seq<u8>) -> Machine {
        Machine { v, ..self }
    }

    pub open spec fn with_pc(self, pc: u16) -> Machine {
        Machine { pc, ..self }
    }

    pub open spec fn with_i(self, i: u16) -> Machine {
        Machine { i, ..self }
    }

    /// Register `x` set to `val`.
    pub open spec fn set_reg(self, x: int, val: u8) -> Machine {
        self.with_v(self.v.update(x, val))
    }

    /// `VF` set to `flag`, then register `x` set to `val`.
    pub open spec fn set_flag_reg(self, x: int, flag: u8, val: u8) -> Machine {
        self.with_v(self.v.update(15, flag).update(x, val))
    }

    /// The program counter moved past the next instruction when `cond` holds.
    pub open spec fn skip_if(self, cond: bool) -> Machine {
        if cond {
            self.with_pc(((self.pc + 2) % 0x10000) as u16)
        } else {
            self
        }
    }
}

/// The state right after loading `rom`: font at 0, image at 0x200, the rest zero.
pub open spec fn initial_machine(rom: Seq<u8>) -> Machine {
    Machine {
        memory: Seq::new(
            MEMORY_SIZE as nat,
            |a: int|
                if a < FONT_SIZE {
                    font()[a]
                } else if PROGRAM_START <= a < PROGRAM_START + rom.len() {
                    rom[a - PROGRAM_START]
                } else {
                    0u8
                },
        ),
        v: Seq::new(16, |r: int| 0u8),
        i: 0,
        pc: PROGRAM_START as u16,
        gfx: Seq::new(SCREEN_SIZE as nat, |k: int| false),
        delay_timer: 0,
        sound_timer: 0,
        stack: Seq::empty(),
        keys: Seq::new(16, |k: int| false),
    }
}

/// Whether bit `c` of a sprite row is set, counting from the leftmost (most significant) bit.
pub open spec fn sprite_bit(row: u8, c: int) -> bool {
    (row >> ((7 - c) as u8)) & 1u8 == 1u8
}

/// The sprite row that lands on framebuffer row `k / 64` when drawing from row `vy`.
pub open spec fn sprite_row(vy: u8, k: int) -> int {
    (k / 64 - vy) % 32
}

/// The sprite column that lands on framebuffer column `k % 64` when drawing from column `vx`.
pub open spec fn sprite_col(vx: u8, k: int) -> int {
    (k % 64 - vx) % 64
}

/// Whether a set sprite bit falls on pixel `k` when an `n`-row sprite read at `I`
/// is drawn at `(vx, vy)`, wrapping around both edges of the screen.
pub open spec fn sprite_covers(m: Machine, vx: u8, vy: u8, n: int, k: int) -> bool {
    let r = sprite_row(vy, k);
    let c = sprite_col(vx, k);
    r < n && c < 8 && sprite_bit(m.memory[m.i + r], c)
}

/// Whether drawing turns any lit pixel off.
pub open spec fn draw_collides(m: Machine, vx: u8, vy: u8, n: int) -> bool {
    exists|k: int| 0 <= k < SCREEN_SIZE && #[trigger] m.gfx[k] && sprite_covers(m, vx, vy, n, k)
}

/// The framebuffer after XOR-ing the sprite onto it.
pub open spec fn drawn_gfx(m: Machine, vx: u8, vy: u8, n: int) -> Seq<bool> {
    Seq::new(SCREEN_SIZE as nat, |k: int| m.gfx[k] != sprite_covers(m, vx, vy, n, k))
}

pub open spec fn draw_spec(m: Machine, x: int, y: int, n: int) -> Result<Machine, EngineError> {
    if n > 0 && m.i + n > MEMORY_SIZE {
        Err(EngineError::MemoryOutOfBounds(m.i))
    } else {
        let vx = m.v[x];
        let vy = m.v[y];
        let flag: u8 = if draw_collides(m, vx, vy, n) { 1 } else { 0 };
        Ok(Machine { gfx: drawn_gfx(m, vx, vy, n), v: m.v.update(15, flag), ..m })
    }
}

/// The highest key index below `n` that is pressed.
pub open spec fn last_pressed(keys: Seq<bool>, n: int) -> Option<int>
    decreases n,
{
    if n <= 0 {
        None
    } else if keys[n - 1] {
        Some(n - 1)
    } else {
        last_pressed(keys, n - 1)
    }
}

/// Whether a write of `len` bytes at `I` stays inside the writable memory above the font.
pub open spec fn writable(m: Machine, len: int) -> bool {
    FONT_SIZE <= m.i && m.i + len <= MEMORY_SIZE
}

/// Registers `V0..=Vx` copied to memory at `I`.
pub open spec fn stored_memory(m: Machine, x: int) -> Seq<u8> {
    Seq::new(
        MEMORY_SIZE as nat,
        |a: int|
            if m.i <= a <= m.i + x {
                m.v[a - m.i]
            } else {
                m.memory[a]
            },
    )
}

/// Registers `V0..=Vx` filled from memory at `I`.
pub open spec fn loaded_regs(m: Machine, x: int) -> Seq<u8> {
    Seq::new(
        16,
        |r: int|
            if r <= x {
                m.memory[m.i + r]
            } else {
                m.v[r]
            },
    )
}

/// The decimal digits of `val` written to memory at `I`, `I + 1`, `I + 2`.
pub open spec fn bcd_memory(m: Machine, val: u8) -> Seq<u8> {
    m.memory.update(m.i as int, val / 100).update(m.i + 1, val % 100 / 10).update(
        m.i + 2,
        val % 10,
    )
}

/// The effect of one instruction on a machine whose program counter has already
/// been moved past it; `rnd` is the random byte that a random-load uses.
pub open spec fn execute_spec(m: Machine, ins: Instruction, rnd: u8) -> Result<
    Machine,
    EngineError,
> {
    match ins {
        Instruction::Cls => Ok(Machine { gfx: Seq::new(SCREEN_SIZE as nat, |k: int| false), ..m }),
        Instruction::Ret => if m.stack.len() == 0 {
            Err(EngineError::StackUnderflow)
        } else {
            Ok(Machine { pc: m.stack.last(), stack: m.stack.drop_last(), ..m })
        },
        Instruction::Jmp { addr } => Ok(m.with_pc(addr)),
        Instruction::Call { addr } => if m.stack.len() >= STACK_DEPTH {
            Err(EngineError::StackOverflow)
        } else {
            Ok(Machine { pc: addr, stack: m.stack.push(m.pc), ..m })
        },
        Instruction::SeVxB { x, kk } => Ok(m.skip_if(m.v[x as int] == kk)),
        Instruction::SneVxB { x, kk } => Ok(m.skip_if(m.v[x as int] != kk)),
        Instruction::SeVxVy { x, y } => Ok(m.skip_if(m.v[x as int] == m.v[y as int])),
        Instruction::LdVxB { x, kk } => Ok(m.set_reg(x as int, kk)),
        Instruction::AddVxB { x, kk } => Ok(
            m.set_reg(x as int, ((m.v[x as int] + kk) % 256) as u8),
        ),
        Instruction::LdVxVy { x, y } => Ok(m.set_reg(x as int, m.v[y as int])),
        Instruction::Or { x, y } => Ok(m.set_reg(x as int, m.v[x as int] | m.v[y as int])),
        Instruction::And { x, y } => Ok(m.set_reg(x as int, m.v[x as int] & m.v[y as int])),
        Instruction::Xor { x, y } => Ok(m.set_reg(x as int, m.v[x as int] ^ m.v[y as int])),
        Instruction::AddVf { x, y } => {
            let sum = m.v[x as int] + m.v[y as int];
            Ok(m.set_flag_reg(x as int, if sum > 255 { 1 } else { 0 }, (sum % 256) as u8))
        },
        Instruction::Sub { x, y } => {
            let (vx, vy) = (m.v[x as int], m.v[y as int]);
            Ok(m.set_flag_reg(x as int, if vx > vy { 1 } else { 0 }, ((vx - vy) % 256) as u8))
        },
        Instruction::Shr { x } => {
            let vx = m.v[x as int];
            Ok(m.set_flag_reg(x as int, vx % 2, vx / 2))
        },
        Instruction::Subn { x, y } => {
            let (vx, vy) = (m.v[x as int], m.v[y as int]);
            Ok(m.set_flag_reg(x as int, if vy > vx { 1 } else { 0 }, ((vy - vx) % 256) as u8))
        },
        Instruction::Shl { x } => {
            let vx = m.v[x as int];
            Ok(m.set_flag_reg(x as int, vx / 128, ((vx * 2) % 256) as u8))
        },
        Instruction::SneVxVy { x, y } => Ok(m.skip_if(m.v[x as int] != m.v[y as int])),
        Instruction::LdIA { addr } => Ok(m.with_i(addr)),
        Instruction::JmpV0A { addr } => Ok(m.with_pc((addr + m.v[0]) as u16)),
        Instruction::Rnd { x, kk } => Ok(m.set_reg(x as int, rnd & kk)),
        Instruction::Draw { x, y, n } => draw_spec(m, x as int, y as int, n as int),
        Instruction::SkpVx { x } => Ok(m.skip_if(m.keys[m.v[x as int] as int % 16])),
        Instruction::SknpVx { x } => Ok(m.skip_if(!m.keys[m.v[x as int] as int % 16])),
        Instruction::LdVxDt { x } => Ok(m.set_reg(x as int, m.delay_timer)),
        Instruction::LdVxK { x } => match last_pressed(m.keys, 16) {
            Some(k) => Ok(m.set_reg(x as int, k as u8)),
            None => Ok(m.with_pc(((m.pc + 0x10000 - 2) % 0x10000) as u16)),
        },
        Instruction::LdDtVx { x } => Ok(Machine { delay_timer: m.v[x as int], ..m }),
        Instruction::LdStVx { x } => Ok(Machine { sound_timer: m.v[x as int], ..m }),
        Instruction::AddIVx { x } => Ok(m.with_i(((m.i + m.v[x as int]) % 0x10000) as u16)),
        Instruction::LdFVx { x } => Ok(m.with_i((m.v[x as int] * 5) as u16)),
        Instruction::LdBVx { x } => if writable(m, 3) {
            Ok(Machine { memory: bcd_memory(m, m.v[x as int]), ..m })
        } else {
            Err(EngineError::MemoryOutOfBounds(m.i))
        },
        Instruction::LdIVx { x } => if writable(m, x + 1) {
            Ok(Machine { memory: stored_memory(m, x as int), ..m })
        } else {
            Err(EngineError::MemoryOutOfBounds(m.i))
        },
        Instruction::LdVxI { x } => if m.i + x + 1 <= MEMORY_SIZE {
            Ok(m.with_v(loaded_regs(m, x as int)))
        } else {
            Err(EngineError::MemoryOutOfBounds(m.i))
        },
    }
}

/// The big-endian word at the program counter.
pub open spec fn fetched_word(m: Machine) -> u16 {
    (m.memory[m.pc as int] * 0x100 + m.memory[m.pc + 1]) as u16
}

/// One fetch/decode/execute cycle: the next state, or the error that stops it.
pub open spec fn step_spec(m: Machine, rnd: u8) -> Result<Machine, EngineError> {
    if m.pc + 1 >= MEMORY_SIZE {
        Err(EngineError::MemoryOutOfBounds(m.pc))
    } else {
        let w = fetched_word(m);
        match decoded(w) {
            None => Err(EngineError::UnknownOpcode(w)),
            Some(ins) => execute_spec(m.with_pc((m.pc + 2) as u16), ins, rnd),
        }
    }
}

/// An operation that reported `r` and left `after` behind did what `expected`
/// says: on success the state is the expected one, on failure it is unchanged.
pub open spec fn settles(
    before: Machine,
    after: Machine,
    r: Result<(), EngineError>,
    expected: Result<Machine, EngineError>,
) -> bool {
    match expected {
        Ok(m) => r is Ok && after == m,
        Err(e) => r == Err::<(), EngineError>(e) && after == before,
    }
}

/// One timer tick: each nonzero timer counts down by one.
pub open spec fn ticked(m: Machine) -> Machine {
    Machine {
        delay_timer: if m.delay_timer > 0 { (m.delay_timer - 1) as u8 } else { 0 },
        sound_timer: if m.sound_timer > 0 { (m.sound_timer - 1) as u8 } else { 0 },
        ..m
    }
}

} // verus!
