use vstd::prelude::*;
use vstd::arithmetic::div_mod::{lemma_fundamental_div_mod, lemma_fundamental_div_mod_converse};
use crate::decode::{
    Instruction, JoinHexInt, decode, decode_spec, split_opcode, are_nibbles, word_of,
    lemma_word_of_nibbles,
};
use crate::error::EngineError;
use crate::model::{
    Machine, font, initial_machine, ticked, settles, draw_spec, sprite_covers, sprite_row,
    sprite_col, draw_collides, drawn_gfx, execute_spec, last_pressed, stored_memory, loaded_regs,
    step_spec, fetched_word, STACK_DEPTH, MEMORY_SIZE, FONT_SIZE, PROGRAM_START, SCREEN_WIDTH,
    SCREEN_HEIGHT, SCREEN_SIZE,
};
use crate::rng::random_byte;

verus! {

/// The virtual machine: memory, registers, timers, call stack, keypad and framebuffer.
pub struct Chip8 {
    memory: Vec<u8>,
    v: Vec<u8>,
    i: u16,
    pc: u16,
    gfx: Vec<bool>,
    delay_timer: u8,
    sound_timer: u8,
    stack: Vec<u16>,
    key: Vec<bool>,
}

impl View for Chip8 {
    type V = Machine;

    closed spec fn view(&self) -> Machine {
        Machine {
            memory: self.memory@,
            v: self.v@,
            i: self.i,
            pc: self.pc,
            gfx: self.gfx@,
            delay_timer: self.delay_timer,
            sound_timer: self.sound_timer,
            stack: self.stack@,
            keys: self.key@,
        }
    }
}

/// Where a sprite's row `row` and column `col` land when drawn at `(vx, vy)`,
/// and that no other pixel has the same sprite row and column.
proof fn lemma_sprite_cell(vx: u8, vy: u8, row: int, col: int)
    requires
        0 <= row < 32,
        0 <= col < 64,
    ensures
        ({
            let k = ((vy + row) % 32) * 64 + (vx + col) % 64;
            &&& 0 <= k < SCREEN_SIZE
            &&& sprite_row(vy, k) == row
            &&& sprite_col(vx, k) == col
            &&& forall|j: int|
                0 <= j < SCREEN_SIZE && sprite_row(vy, j) == row && sprite_col(vx, j) == col
                    ==> j == k
        }),
{
    let yy = (vy + row) % 32;
    let xx = (vx + col) % 64;
    let k = yy * 64 + xx;
    lemma_fundamental_div_mod_converse(k, 64, yy, xx);
    let qy = (vy + row) / 32;
    let qx = (vx + col) / 64;
    lemma_fundamental_div_mod_converse(yy - vy, 32, -qy, row);
    lemma_fundamental_div_mod_converse(xx - vx, 64, -qx, col);
    assert forall|j: int|
        0 <= j < SCREEN_SIZE && sprite_row(vy, j) == row && sprite_col(vx, j) == col implies j
        == k by {
        let jy = j / 64;
        let jx = j % 64;
        lemma_fundamental_div_mod(j, 64);
        let ty = (jy - vy) / 32;
        let tx = (jx - vx) / 64;
        lemma_fundamental_div_mod(jy - vy, 32);
        lemma_fundamental_div_mod(jx - vx, 64);
        lemma_fundamental_div_mod_converse(vy + row, 32, -ty, jy);
        lemma_fundamental_div_mod_converse(vx + col, 64, -tx, jx);
    }
}

/// The built-in font as bytes.
fn font_bytes() -> (r: [u8; 80])
    ensures
        r@ == font(),
{
    let r: [u8; 80] = [
        0xF0, 0x90, 0x90, 0x90, 0xF0,
        0x20, 0x60, 0x20, 0x20, 0x70,
        0xF0, 0x10, 0xF0, 0x80, 0xF0,
        0xF0, 0x10, 0xF0, 0x10, 0xF0,
        0x90, 0x90, 0xF0, 0x10, 0x10,
        0xF0, 0x80, 0xF0, 0x10, 0xF0,
        0xF0, 0x80, 0xF0, 0x90, 0xF0,
        0xF0, 0x10, 0x20, 0x40, 0x40,
        0xF0, 0x90, 0xF0, 0x90, 0xF0,
        0xF0, 0x90, 0xF0, 0x10, 0xF0,
        0xF0, 0x90, 0xF0, 0x90, 0x90,
        0xE0, 0x90, 0xE0, 0x90, 0xE0,
        0xF0, 0x80, 0x80, 0x80, 0xF0,
        0xE0, 0x90, 0x90, 0x90, 0xE0,
        0xF0, 0x80, 0xF0, 0x80, 0xF0,
        0xF0, 0x80, 0xF0, 0x80, 0x80,
    ];
    assert(r@ =~= font());
    r
}

impl Chip8 {
    /// The machine's invariant, over its abstract state.
    pub open spec fn wf(&self) -> bool {
        self@.wf()
    }

    /// A machine with the font and `rom` loaded and every other part zeroed,
    /// ready to run from 0x200; `ProgramTooLarge` when `rom` does not fit.
    pub fn new(rom: &[u8]) -> (r: Result<Chip8, EngineError>)
        ensures
            rom@.len() <= MEMORY_SIZE - PROGRAM_START ==> (r matches Ok(c) && c.wf() && c@
                == initial_machine(rom@)),
            rom@.len() > MEMORY_SIZE - PROGRAM_START ==> r == Err::<Chip8, EngineError>(
                EngineError::ProgramTooLarge,
            ),
    {
        if rom.len() > MEMORY_SIZE - PROGRAM_START {
            return Err(EngineError::ProgramTooLarge);
        }
        let glyphs = font_bytes();
        let ghost init = initial_machine(rom@);
        let mut memory: Vec<u8> = Vec::new();
        let mut a: usize = 0;
        while a < MEMORY_SIZE
            invariant
                a <= MEMORY_SIZE,
                rom@.len() <= MEMORY_SIZE - PROGRAM_START,
                glyphs@ == font(),
                init == initial_machine(rom@),
                memory@.len() == a,
                forall|b: int| 0 <= b < a ==> memory@[b] == init.memory[b],
            decreases MEMORY_SIZE - a,
        {
            let byte = if a < FONT_SIZE {
                glyphs[a]
            } else if a >= PROGRAM_START && a - PROGRAM_START < rom.len() {
                rom[a - PROGRAM_START]
            } else {
                0
            };
            memory.push(byte);
            a += 1;
        }
        let c = Chip8 {
            memory,
            v: vec![0u8; 16],
            i: 0,
            pc: PROGRAM_START as u16,
            gfx: vec![false; SCREEN_SIZE],
            delay_timer: 0,
            sound_timer: 0,
            stack: Vec::new(),
            key: vec![false; 16],
        };
        assert(c@.memory =~= init.memory);
        assert(c@.v =~= init.v);
        assert(c@.gfx =~= init.gfx);
        assert(c@.keys =~= init.keys);
        assert(c@.stack =~= init.stack);
        assert(c@ =~= init);
        Ok(c)
    }

    /// Clears the framebuffer.
    fn cls(&mut self)
        requires
            old(self).wf(),
        ensures
            final(self)@ == (Machine { gfx: Seq::new(SCREEN_SIZE as nat, |k: int| false), ..old(self)@ }),
    {
        self.gfx = vec![false; SCREEN_SIZE];
        assert(self@.gfx =~= Seq::new(SCREEN_SIZE as nat, |k: int| false));
        assert(self@ =~= (Machine { gfx: Seq::new(SCREEN_SIZE as nat, |k: int| false), ..old(self)@ }));
    }

    /// Returns from a subroutine: pops the return address into `PC`.
    fn ret(&mut self) -> (r: Result<(), EngineError>)
        requires
            old(self).wf(),
        ensures
            settles(old(self)@, final(self)@, r, execute_spec(old(self)@, Instruction::Ret, 0)),
    {
        match self.stack.pop() {
            Some(addr) => {
                self.pc = addr;
                Ok(())
            },
            None => Err(EngineError::StackUnderflow),
        }
    }

    /// Jumps to `nnn`.
    fn jmp(&mut self, nnn: u16)
        ensures
            final(self)@ == old(self)@.with_pc(nnn),
    {
        self.pc = nnn;
    }

    /// Calls the subroutine at `nnn`, saving `PC` on the stack.
    fn call(&mut self, nnn: u16) -> (r: Result<(), EngineError>)
        requires
            old(self).wf(),
        ensures
            settles(old(self)@, final(self)@, r, execute_spec(old(self)@, Instruction::Call { addr: nnn }, 0)),
    {
        if self.stack.len() >= STACK_DEPTH {
            return Err(EngineError::StackOverflow);
        }
        self.stack.push(self.pc);
        self.pc = nnn;
        Ok(())
    }

    /// Skips the next instruction when `cond` holds.
    fn skip_if(&mut self, cond: bool)
        ensures
            final(self)@ == old(self)@.skip_if(cond),
    {
        if cond {
            self.pc = self.pc.wrapping_add(2);
        }
    }

    /// Skips the next instruction when `Vx == kk`.
    fn se_vx_b(&mut self, x: u8, kk: u8)
        requires
            old(self).wf(),
            x < 16,
        ensures
            final(self)@ == old(self)@.skip_if(old(self)@.v[x as int] == kk),
    {
        let c = self.v[x as usize] == kk;
        self.skip_if(c);
    }

    /// Skips the next instruction when `Vx != kk`.
    fn sne_vx_b(&mut self, x: u8, kk: u8)
        requires
            old(self).wf(),
            x < 16,
        ensures
            final(self)@ == old(self)@.skip_if(old(self)@.v[x as int] != kk),
    {
        let c = self.v[x as usize] != kk;
        self.skip_if(c);
    }

    /// Skips the next instruction when `Vx == Vy`.
    fn se_vx_vy(&mut self, x: u8, y: u8)
        requires
            old(self).wf(),
            x < 16,
            y < 16,
        ensures
            final(self)@ == old(self)@.skip_if(old(self)@.v[x as int] == old(self)@.v[y as int]),
    {
        let c = self.v[x as usize] == self.v[y as usize];
        self.skip_if(c);
    }

    /// Skips the next instruction when `Vx != Vy`.
    fn sne(&mut self, x: u8, y: u8)
        requires
            old(self).wf(),
            x < 16,
            y < 16,
        ensures
            final(self)@ == old(self)@.skip_if(old(self)@.v[x as int] != old(self)@.v[y as int]),
    {
        let c = self.v[x as usize] != self.v[y as usize];
        self.skip_if(c);
    }

    /// Sets register `x` to `val`.
    fn set_reg(&mut self, x: u8, val: u8)
        requires
            old(self).wf(),
            x < 16,
        ensures
            final(self).wf(),
            final(self)@ == old(self)@.set_reg(x as int, val),
    {
        self.v.set(x as usize, val);
    }

    /// Sets `VF` to `flag`, then register `x` to `val`.
    fn set_flag_reg(&mut self, x: u8, flag: u8, val: u8)
        requires
            old(self).wf(),
            x < 16,
        ensures
            final(self).wf(),
            final(self)@ == old(self)@.set_flag_reg(x as int, flag, val),
    {
        self.v.set(15, flag);
        self.v.set(x as usize, val);
    }

    /// `Vx += kk`, wrapping, flags untouched.
    fn add_vx_b(&mut self, x: u8, kk: u8)
        requires
            old(self).wf(),
            x < 16,
        ensures
            final(self).wf(),
            final(self)@ == old(self)@.set_reg(x as int, ((old(self)@.v[x as int] + kk) % 256) as u8),
    {
        let val = self.v[x as usize].wrapping_add(kk);
        self.set_reg(x, val);
    }

    /// `Vx += Vy` with `VF` as the carry.
    fn add_vf(&mut self, x: u8, y: u8)
        requires
            old(self).wf(),
            x < 16,
            y < 16,
        ensures
            final(self).wf(),
            execute_spec(old(self)@, Instruction::AddVf { x, y }, 0) == Ok::<Machine, EngineError>(final(self)@),
    {
        let sum = self.v[x as usize] as u16 + self.v[y as usize] as u16;
        let flag: u8 = if sum > 0xFF {
            1
        } else {
            0
        };
        self.set_flag_reg(x, flag, (sum % 256) as u8);
    }

    /// `Vx -= Vy`, wrapping, with `VF` set when no borrow occurs.
    fn sub(&mut self, x: u8, y: u8)
        requires
            old(self).wf(),
            x < 16,
            y < 16,
        ensures
            final(self).wf(),
            execute_spec(old(self)@, Instruction::Sub { x, y }, 0) == Ok::<Machine, EngineError>(final(self)@),
    {
        let vx = self.v[x as usize];
        let vy = self.v[y as usize];
        let flag: u8 = if vx > vy {
            1
        } else {
            0
        };
        self.set_flag_reg(x, flag, vx.wrapping_sub(vy));
    }

    /// `Vx = Vy - Vx`, wrapping, with `VF` set when no borrow occurs.
    fn subn(&mut self, x: u8, y: u8)
        requires
            old(self).wf(),
            x < 16,
            y < 16,
        ensures
            final(self).wf(),
            execute_spec(old(self)@, Instruction::Subn { x, y }, 0) == Ok::<Machine, EngineError>(final(self)@),
    {
        let vx = self.v[x as usize];
        let vy = self.v[y as usize];
        let flag: u8 = if vy > vx {
            1
        } else {
            0
        };
        self.set_flag_reg(x, flag, vy.wrapping_sub(vx));
    }

    /// `Vx >>= 1` with `VF` as the bit shifted out.
    fn shr(&mut self, x: u8)
        requires
            old(self).wf(),
            x < 16,
        ensures
            final(self).wf(),
            execute_spec(old(self)@, Instruction::Shr { x }, 0) == Ok::<Machine, EngineError>(final(self)@),
    {
        let vx = self.v[x as usize];
        assert(vx & 1 == vx % 2 && vx >> 1 == vx / 2) by (bit_vector);
        self.set_flag_reg(x, vx & 1, vx >> 1);
    }

    /// `Vx <<= 1` with `VF` as the bit shifted out.
    fn shl(&mut self, x: u8)
        requires
            old(self).wf(),
            x < 16,
        ensures
            final(self).wf(),
            execute_spec(old(self)@, Instruction::Shl { x }, 0) == Ok::<Machine, EngineError>(final(self)@),
    {
        let vx = self.v[x as usize];
        assert((vx >> 7) & 1 == vx / 128 && vx << 1 == (vx * 2) % 256) by (bit_vector);
        self.set_flag_reg(x, (vx >> 7) & 1, vx << 1);
    }

    /// Skips the next instruction when the key numbered by the low nibble of `Vx` is down.
    fn skp_vx(&mut self, x: u8)
        requires
            old(self).wf(),
            x < 16,
        ensures
            final(self)@ == old(self)@.skip_if(old(self)@.keys[old(self)@.v[x as int] as int % 16]),
    {
        let c = self.key[(self.v[x as usize] % 16) as usize];
        self.skip_if(c);
    }

    /// Skips the next instruction when the key numbered by the low nibble of `Vx` is up.
    fn sknp_vx(&mut self, x: u8)
        requires
            old(self).wf(),
            x < 16,
        ensures
            final(self)@ == old(self)@.skip_if(!old(self)@.keys[old(self)@.v[x as int] as int % 16]),
    {
        let c = !self.key[(self.v[x as usize] % 16) as usize];
        self.skip_if(c);
    }

    /// Waits for a key: stores the highest pressed key's index in `Vx`, or,
    /// with no key down, steps `PC` back so the instruction runs again.
    fn ld_vx_k(&mut self, x: u8)
        requires
            old(self).wf(),
            x < 16,
        ensures
            final(self).wf(),
            execute_spec(old(self)@, Instruction::LdVxK { x }, 0) == Ok::<Machine, EngineError>(final(self)@),
    {
        let mut found: Option<u8> = None;
        let mut k: usize = 0;
        while k < 16
            invariant
                k <= 16,
                self.wf(),
                match found {
                    Some(f) => last_pressed(self@.keys, k as int) == Some(f as int),
                    None => last_pressed(self@.keys, k as int) is None,
                },
            decreases 16 - k,
        {
            if self.key[k] {
                found = Some(k as u8);
            }
            k += 1;
        }
        match found {
            Some(f) => self.set_reg(x, f),
            None => self.pc = self.pc.wrapping_sub(2),
        }
    }

    /// Writes the hundreds, tens and ones digits of `Vx` to memory at `I`, `I + 1`, `I + 2`.
    fn ld_vx(&mut self, x: u8) -> (r: Result<(), EngineError>)
        requires
            old(self).wf(),
            x < 16,
        ensures
            final(self).wf(),
            settles(old(self)@, final(self)@, r, execute_spec(old(self)@, Instruction::LdBVx { x }, 0)),
    {
        let base = self.i as usize;
        if base < FONT_SIZE || base + 3 > MEMORY_SIZE {
            return Err(EngineError::MemoryOutOfBounds(self.i));
        }
        let vx = self.v[x as usize];
        self.memory.set(base, vx / 100);
        self.memory.set(base + 1, vx % 100 / 10);
        self.memory.set(base + 2, vx % 10);
        Ok(())
    }

    /// Copies registers `V0..=Vx` to memory starting at `I`.
    fn ld_i_vx(&mut self, x: u8) -> (r: Result<(), EngineError>)
        requires
            old(self).wf(),
            x < 16,
        ensures
            final(self).wf(),
            settles(old(self)@, final(self)@, r, execute_spec(old(self)@, Instruction::LdIVx { x }, 0)),
    {
        let base = self.i as usize;
        if base < FONT_SIZE || base + x as usize + 1 > MEMORY_SIZE {
            return Err(EngineError::MemoryOutOfBounds(self.i));
        }
        let ghost m0 = self@;
        let mut r: usize = 0;
        while r <= x as usize
            invariant
                r <= x + 1,
                x < 16,
                FONT_SIZE <= base,
                base + x + 1 <= MEMORY_SIZE,
                base == m0.i,
                m0.wf(),
                self@ == (Machine { memory: self@.memory, ..m0 }),
                self.memory@.len() == MEMORY_SIZE,
                forall|a: int|
                    0 <= a < MEMORY_SIZE ==> #[trigger] self.memory@[a] == if base <= a < base + r {
                        m0.v[a - base]
                    } else {
                        m0.memory[a]
                    },
            decreases x + 1 - r,
        {
            let val = self.v[r];
            self.memory.set(base + r, val);
            r += 1;
        }
        assert(self@.memory =~= stored_memory(m0, x as int));
        Ok(())
    }

    /// Fills registers `V0..=Vx` from memory starting at `I`.
    fn ld_vx_i(&mut self, x: u8) -> (r: Result<(), EngineError>)
        requires
            old(self).wf(),
            x < 16,
        ensures
            final(self).wf(),
            settles(old(self)@, final(self)@, r, execute_spec(old(self)@, Instruction::LdVxI { x }, 0)),
    {
        let base = self.i as usize;
        if base + x as usize + 1 > MEMORY_SIZE {
            return Err(EngineError::MemoryOutOfBounds(self.i));
        }
        let ghost m0 = self@;
        let mut r: usize = 0;
        while r <= x as usize
            invariant
                r <= x + 1,
                x < 16,
                base + x + 1 <= MEMORY_SIZE,
                base == m0.i,
                m0.wf(),
                self@ == (Machine { v: self@.v, ..m0 }),
                self.v@.len() == 16,
                forall|j: int|
                    0 <= j < 16 ==> #[trigger] self.v@[j] == if j < r {
                        m0.memory[base + j]
                    } else {
                        m0.v[j]
                    },
            decreases x + 1 - r,
        {
            let val = self.memory[base + r];
            self.v.set(r, val);
            r += 1;
        }
        assert(self@.v =~= loaded_regs(m0, x as int));
        Ok(())
    }

    /// `Vx = kk`.
    fn ld_vx_b(&mut self, x: u8, kk: u8)
        requires
            old(self).wf(),
            x < 16,
        ensures
            final(self)@ == old(self)@.set_reg(x as int, kk),
    {
        self.set_reg(x, kk);
    }

    /// `Vx = Vy`.
    fn ld_vx_vy(&mut self, x: u8, y: u8)
        requires
            old(self).wf(),
            x < 16,
            y < 16,
        ensures
            final(self)@ == old(self)@.set_reg(x as int, old(self)@.v[y as int]),
    {
        let val = self.v[y as usize];
        self.set_reg(x, val);
    }

    /// `Vx |= Vy`.
    fn or(&mut self, x: u8, y: u8)
        requires
            old(self).wf(),
            x < 16,
            y < 16,
        ensures
            final(self)@ == old(self)@.set_reg(x as int, old(self)@.v[x as int] | old(self)@.v[y as int]),
    {
        let val = self.v[x as usize] | self.v[y as usize];
        self.set_reg(x, val);
    }

    /// `Vx &= Vy`.
    fn and(&mut self, x: u8, y: u8)
        requires
            old(self).wf(),
            x < 16,
            y < 16,
        ensures
            final(self)@ == old(self)@.set_reg(x as int, old(self)@.v[x as int] & old(self)@.v[y as int]),
    {
        let val = self.v[x as usize] & self.v[y as usize];
        self.set_reg(x, val);
    }

    /// `Vx ^= Vy`.
    fn xor(&mut self, x: u8, y: u8)
        requires
            old(self).wf(),
            x < 16,
            y < 16,
        ensures
            final(self)@ == old(self)@.set_reg(x as int, old(self)@.v[x as int] ^ old(self)@.v[y as int]),
    {
        let val = self.v[x as usize] ^ self.v[y as usize];
        self.set_reg(x, val);
    }

    /// `I = nnn`.
    fn ld_i_a(&mut self, nnn: u16)
        ensures
            final(self)@ == old(self)@.with_i(nnn),
    {
        self.i = nnn;
    }

    /// Jumps to `nnn + V0`.
    fn jmp_v0_a(&mut self, nnn: u16)
        requires
            old(self).wf(),
            nnn < 0x1000,
        ensures
            final(self)@ == old(self)@.with_pc((nnn + old(self)@.v[0]) as u16),
    {
        self.pc = nnn + self.v[0] as u16;
    }

    /// `Vx = random & kk`.
    fn rnd(&mut self, x: u8, kk: u8, random: u8)
        requires
            old(self).wf(),
            x < 16,
        ensures
            final(self)@ == old(self)@.set_reg(x as int, random & kk),
    {
        self.set_reg(x, random & kk);
    }

    /// `Vx = delay timer`.
    fn ld_vx_dt(&mut self, x: u8)
        requires
            old(self).wf(),
            x < 16,
        ensures
            final(self)@ == old(self)@.set_reg(x as int, old(self)@.delay_timer),
    {
        let val = self.delay_timer;
        self.set_reg(x, val);
    }

    /// `delay timer = Vx`; the countdown itself is left to `tick_timers`.
    fn ld_dt_vx(&mut self, x: u8)
        requires
            old(self).wf(),
            x < 16,
        ensures
            final(self)@ == (Machine { delay_timer: old(self)@.v[x as int], ..old(self)@ }),
    {
        self.delay_timer = self.v[x as usize];
    }

    /// `sound timer = Vx`; the countdown itself is left to `tick_timers`.
    fn ld_st_vx(&mut self, x: u8)
        requires
            old(self).wf(),
            x < 16,
        ensures
            final(self)@ == (Machine { sound_timer: old(self)@.v[x as int], ..old(self)@ }),
    {
        self.sound_timer = self.v[x as usize];
    }

    /// `I += Vx`, wrapping at 16 bits.
    fn add_i_vx(&mut self, x: u8)
        requires
            old(self).wf(),
            x < 16,
        ensures
            final(self)@ == old(self)@.with_i(((old(self)@.i + old(self)@.v[x as int]) % 0x10000) as u16),
    {
        self.i = self.i.wrapping_add(self.v[x as usize] as u16);
    }

    /// Points `I` at the font glyph for digit `Vx`.
    fn ld_f_vx(&mut self, x: u8)
        requires
            old(self).wf(),
            x < 16,
        ensures
            final(self)@ == old(self)@.with_i((old(self)@.v[x as int] * 5) as u16),
    {
        self.i = self.v[x as usize] as u16 * 5;
    }

    /// Carries out one decoded instruction on a machine whose `PC` already points
    /// past it; `random` is the byte a random-load masks. On an error nothing changes.
    pub fn execute(&mut self, ins: Instruction, random: u8) -> (r: Result<(), EngineError>)
        requires
            old(self).wf(),
            ins.wf(),
        ensures
            final(self).wf(),
            settles(old(self)@, final(self)@, r, execute_spec(old(self)@, ins, random)),
    {
        match ins {
            Instruction::Cls => {
                self.cls();
                Ok(())
            },
            Instruction::Ret => self.ret(),
            Instruction::Jmp { addr } => {
                self.jmp(addr);
                Ok(())
            },
            Instruction::Call { addr } => self.call(addr),
            Instruction::SeVxB { x, kk } => {
                self.se_vx_b(x, kk);
                Ok(())
            },
            Instruction::SneVxB { x, kk } => {
                self.sne_vx_b(x, kk);
                Ok(())
            },
            Instruction::SeVxVy { x, y } => {
                self.se_vx_vy(x, y);
                Ok(())
            },
            Instruction::LdVxB { x, kk } => {
                self.ld_vx_b(x, kk);
                Ok(())
            },
            Instruction::AddVxB { x, kk } => {
                self.add_vx_b(x, kk);
                Ok(())
            },
            Instruction::LdVxVy { x, y } => {
                self.ld_vx_vy(x, y);
                Ok(())
            },
            Instruction::Or { x, y } => {
                self.or(x, y);
                Ok(())
            },
            Instruction::And { x, y } => {
                self.and(x, y);
                Ok(())
            },
            Instruction::Xor { x, y } => {
                self.xor(x, y);
                Ok(())
            },
            Instruction::AddVf { x, y } => {
                self.add_vf(x, y);
                Ok(())
            },
            Instruction::Sub { x, y } => {
                self.sub(x, y);
                Ok(())
            },
            Instruction::Shr { x } => {
                self.shr(x);
                Ok(())
            },
            Instruction::Subn { x, y } => {
                self.subn(x, y);
                Ok(())
            },
            Instruction::Shl { x } => {
                self.shl(x);
                Ok(())
            },
            Instruction::SneVxVy { x, y } => {
                self.sne(x, y);
                Ok(())
            },
            Instruction::LdIA { addr } => {
                self.ld_i_a(addr);
                Ok(())
            },
            Instruction::JmpV0A { addr } => {
                self.jmp_v0_a(addr);
                Ok(())
            },
            Instruction::Rnd { x, kk } => {
                self.rnd(x, kk, random);
                Ok(())
            },
            Instruction::Draw { x, y, n } => self.draw(x, y, n),
            Instruction::SkpVx { x } => {
                self.skp_vx(x);
                Ok(())
            },
            Instruction::SknpVx { x } => {
                self.sknp_vx(x);
                Ok(())
            },
            Instruction::LdVxDt { x } => {
                self.ld_vx_dt(x);
                Ok(())
            },
            Instruction::LdVxK { x } => {
                self.ld_vx_k(x);
                Ok(())
            },
            Instruction::LdDtVx { x } => {
                self.ld_dt_vx(x);
                Ok(())
            },
            Instruction::LdStVx { x } => {
                self.ld_st_vx(x);
                Ok(())
            },
            Instruction::AddIVx { x } => {
                self.add_i_vx(x);
                Ok(())
            },
            Instruction::LdFVx { x } => {
                self.ld_f_vx(x);
                Ok(())
            },
            Instruction::LdBVx { x } => self.ld_vx(x),
            Instruction::LdIVx { x } => self.ld_i_vx(x),
            Instruction::LdVxI { x } => self.ld_vx_i(x),
        }
    }

    /// Dispatches an instruction given as its four nibbles, on a machine whose
    /// `PC` already points past it: `UnknownOpcode` with the word when no pattern
    /// matches, otherwise what `execute` does. On an error nothing changes.
    pub fn exec_opcode(&mut self, split_opcode: (u16, u16, u16, u16), random: u8) -> (r: Result<
        (),
        EngineError,
    >)
        requires
            old(self).wf(),
            are_nibbles(split_opcode),
        ensures
            final(self).wf(),
            settles(
                old(self)@,
                final(self)@,
                r,
                match decode_spec(split_opcode) {
                    None => Err(EngineError::UnknownOpcode(word_of(split_opcode) as u16)),
                    Some(ins) => execute_spec(old(self)@, ins, random),
                },
            ),
    {
        match decode(split_opcode) {
            None => {
                let (n1, n2, n3, n4) = split_opcode;
                Err(EngineError::UnknownOpcode(n1 * 0x1000 + (n2, n3, n4).join_hex_ints()))
            },
            Some(ins) => self.execute(ins, random),
        }
    }

    /// One fetch/decode/execute cycle with `random` as the byte a random-load
    /// uses: reads the big-endian word at `PC`, moves `PC` past it and runs it.
    /// On an error the machine is left as it was.
    pub fn clockcycle_with(&mut self, random: u8) -> (r: Result<(), EngineError>)
        requires
            old(self).wf(),
        ensures
            final(self).wf(),
            settles(old(self)@, final(self)@, r, step_spec(old(self)@, random)),
    {
        let pc = self.pc;
        if pc as usize + 1 >= MEMORY_SIZE {
            return Err(EngineError::MemoryOutOfBounds(pc));
        }
        let hi = self.memory[pc as usize] as u16;
        let lo = self.memory[pc as usize + 1] as u16;
        let word = hi * 0x100 + lo;
        assert(word == fetched_word(self@));
        let nibbles = split_opcode(word);
        proof {
            lemma_word_of_nibbles(word);
        }
        let ghost m0 = self@;
        self.pc = pc + 2;
        let r = self.exec_opcode(nibbles, random);
        if r.is_err() {
            self.pc = pc;
            assert(self@ =~= m0);
        }
        r
    }

    /// One fetch/decode/execute cycle, drawing a fresh random byte for a
    /// random-load. Whatever byte was drawn, the outcome is the one
    /// `clockcycle_with` gives for it.
    pub fn clockcycle(&mut self) -> (r: Result<(), EngineError>)
        requires
            old(self).wf(),
        ensures
            final(self).wf(),
            exists|b: u8| settles(old(self)@, final(self)@, r, #[trigger] step_spec(old(self)@, b)),
    {
        let b = random_byte();
        let r = self.clockcycle_with(b);
        assert(settles(old(self)@, self@, r, step_spec(old(self)@, b)));
        r
    }

    /// XORs an `n`-row sprite read at `I` onto the framebuffer at `(Vx, Vy)`,
    /// wrapping at the screen edges; `VF` tells whether a lit pixel went dark.
    fn draw(&mut self, x: u8, y: u8, n: u8) -> (r: Result<(), EngineError>)
        requires
            old(self).wf(),
            x < 16,
            y < 16,
            n < 16,
        ensures
            final(self).wf(),
            settles(old(self)@, final(self)@, r, draw_spec(old(self)@, x as int, y as int, n as int)),
    {
        let base = self.i as usize;
        if n > 0 && base + n as usize > MEMORY_SIZE {
            return Err(EngineError::MemoryOutOfBounds(self.i));
        }
        let vx = self.v[x as usize];
        let vy = self.v[y as usize];
        let ghost m0 = self@;
        let mut collided = false;
        let mut row: u8 = 0;
        while row < n
            invariant
                row <= n < 16,
                n == 0 || base + n <= MEMORY_SIZE,
                base == m0.i,
                vx == m0.v[x as int],
                vy == m0.v[y as int],
                m0.wf(),
                self@ == (Machine { gfx: self@.gfx, ..m0 }),
                self.gfx@.len() == SCREEN_SIZE,
                forall|k: int|
                    0 <= k < SCREEN_SIZE ==> #[trigger] self.gfx@[k] == (m0.gfx[k] != (
                    sprite_covers(m0, vx, vy, n as int, k) && sprite_row(vy, k) < row)),
                collided == exists|k: int|
                    0 <= k < SCREEN_SIZE && #[trigger] m0.gfx[k] && sprite_covers(
                        m0,
                        vx,
                        vy,
                        n as int,
                        k,
                    ) && sprite_row(vy, k) < row,
            decreases n - row,
        {
            let sprite = self.memory[base + row as usize];
            let yy = (vy as usize + row as usize) % SCREEN_HEIGHT;
            let mut col: u8 = 0;
            while col < 8
                invariant
                    row < n < 16,
                    col <= 8,
                    base + n <= MEMORY_SIZE,
                    base == m0.i,
                    sprite == m0.memory[m0.i + row],
                    yy == (vy + row) % 32,
                    m0.wf(),
                    self@ == (Machine { gfx: self@.gfx, ..m0 }),
                    self.gfx@.len() == SCREEN_SIZE,
                    forall|k: int|
                        0 <= k < SCREEN_SIZE ==> #[trigger] self.gfx@[k] == (m0.gfx[k] != (
                        sprite_covers(m0, vx, vy, n as int, k) && (sprite_row(vy, k) < row || (
                        sprite_row(vy, k) == row && sprite_col(vx, k) < col)))),
                    collided == exists|k: int|
                        0 <= k < SCREEN_SIZE && #[trigger] m0.gfx[k] && sprite_covers(
                            m0,
                            vx,
                            vy,
                            n as int,
                            k,
                        ) && (sprite_row(vy, k) < row || (sprite_row(vy, k) == row
                            && sprite_col(vx, k) < col)),
                decreases 8 - col,
            {
                let xx = (vx as usize + col as usize) % SCREEN_WIDTH;
                let idx = yy * SCREEN_WIDTH + xx;
                proof {
                    lemma_sprite_cell(vx, vy, row as int, col as int);
                }
                let ghost before = self.gfx@;
                let ghost was_collided = collided;
                if (sprite >> (7 - col)) & 1 == 1 {
                    assert(sprite_covers(m0, vx, vy, n as int, idx as int));
                    if self.gfx[idx] {
                        self.gfx.set(idx, false);
                        collided = true;
                    } else {
                        self.gfx.set(idx, true);
                    }
                } else {
                    assert(!sprite_covers(m0, vx, vy, n as int, idx as int));
                }
                let ghost c1 = (col + 1) as int;
                assert forall|k: int| 0 <= k < SCREEN_SIZE implies #[trigger] self.gfx@[k] == (
                m0.gfx[k] != (sprite_covers(m0, vx, vy, n as int, k) && (sprite_row(vy, k) < row
                    || (sprite_row(vy, k) == row && sprite_col(vx, k) < c1)))) by {
                    if k != idx {
                        assert(self.gfx@[k] == before[k]);
                    }
                }
                proof {
                    if collided && !was_collided {
                        assert(m0.gfx[idx as int] && sprite_covers(m0, vx, vy, n as int, idx as int)
                            && sprite_row(vy, idx as int) == row && sprite_col(vx, idx as int) < c1);
                    }
                    if !collided {
                        assert forall|k: int|
                            0 <= k < SCREEN_SIZE && #[trigger] m0.gfx[k] && sprite_covers(
                                m0,
                                vx,
                                vy,
                                n as int,
                                k,
                            ) implies !(sprite_row(vy, k) < row || (sprite_row(vy, k) == row
                            && sprite_col(vx, k) < c1)) by {
                            if k == idx {
                                assert(before[k] == m0.gfx[k]);
                            }
                        }
                    }
                }
                col += 1;
            }
            row += 1;
        }
        let flag: u8 = if collided {
            1
        } else {
            0
        };
        self.v.set(15, flag);
        proof {
            let m1 = self@;
            assert(m1.gfx =~= drawn_gfx(m0, vx, vy, n as int));
            assert(collided == draw_collides(m0, vx, vy, n as int));
            assert(m1 =~= (Machine { gfx: drawn_gfx(m0, vx, vy, n as int), v: m0.v.update(15, flag), ..m0 }));
        }
        Ok(())
    }

    /// The program counter.
    pub fn pc(&self) -> (r: u16)
        ensures
            r == self@.pc,
    {
        self.pc
    }

    /// The index register `I`.
    pub fn index(&self) -> (r: u16)
        ensures
            r == self@.i,
    {
        self.i
    }

    /// General-purpose register `Vx`.
    pub fn register(&self, x: usize) -> (r: u8)
        requires
            self.wf(),
            x < 16,
        ensures
            r == self@.v[x as int],
    {
        self.v[x]
    }

    /// The byte at `addr`.
    pub fn memory_at(&self, addr: usize) -> (r: u8)
        requires
            self.wf(),
            addr < MEMORY_SIZE,
        ensures
            r == self@.memory[addr as int],
    {
        self.memory[addr]
    }

    /// Whether pixel `(x, y)` is lit.
    pub fn pixel(&self, x: usize, y: usize) -> (r: bool)
        requires
            self.wf(),
            x < SCREEN_WIDTH,
            y < SCREEN_HEIGHT,
        ensures
            r == self@.gfx[y * SCREEN_WIDTH + x],
    {
        self.gfx[y * SCREEN_WIDTH + x]
    }

    /// The framebuffer, row by row, 64 pixels to a row.
    pub fn framebuffer(&self) -> (r: &Vec<bool>)
        ensures
            r@ == self@.gfx,
    {
        &self.gfx
    }

    /// The number of return addresses on the call stack.
    pub fn stack_depth(&self) -> (r: usize)
        ensures
            r == self@.stack.len(),
    {
        self.stack.len()
    }

    /// The delay timer.
    pub fn delay_timer(&self) -> (r: u8)
        ensures
            r == self@.delay_timer,
    {
        self.delay_timer
    }

    /// The sound timer; while it is nonzero the host should sound a tone.
    pub fn sound_timer(&self) -> (r: u8)
        ensures
            r == self@.sound_timer,
    {
        self.sound_timer
    }

    /// Counts each nonzero timer down by one; the host calls this at 60 Hz.
    pub fn tick_timers(&mut self)
        requires
            old(self).wf(),
        ensures
            final(self).wf(),
            final(self)@ == ticked(old(self)@),
    {
        if self.delay_timer > 0 {
            self.delay_timer = self.delay_timer - 1;
        }
        if self.sound_timer > 0 {
            self.sound_timer = self.sound_timer - 1;
        }
    }

    /// Records whether key `index` is held down.
    pub fn set_key(&mut self, index: usize, pressed: bool)
        requires
            old(self).wf(),
            index < 16,
        ensures
            final(self).wf(),
            final(self)@ == (Machine { keys: old(self)@.keys.update(index as int, pressed), ..old(self)@ }),
    {
        self.key.set(index, pressed);
    }
}

} // verus!
