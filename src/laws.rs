use vstd::prelude::*;
use crate::decode::{Instruction, decoded, lemma_word_of_nibbles, nibbles_of};
use crate::error::EngineError;
use crate::model::{
    Machine, execute_spec, step_spec, fetched_word, draw_collides, sprite_covers,
    writable, MEMORY_SIZE, STACK_DEPTH, SCREEN_SIZE,
};

verus! {

/// Carry-add of 1 to a register holding 0xFF leaves 0 in it and sets `VF` to 1.
pub proof fn lemma_add_carry_wraps(m: Machine, x: u8, y: u8, random: u8)
    requires
        m.wf(),
        x < 15,
        y < 16,
        m.v[x as int] == 0xFF,
        m.v[y as int] == 1,
    ensures
        execute_spec(m, Instruction::AddVf { x, y }, random) matches Ok(m1) && m1.v[x as int] == 0
            && m1.v[15] == 1,
{
}

/// Subtraction sets `VF` exactly when `Vx > Vy` and leaves `(Vx - Vy) mod 256` in `Vx`.
pub proof fn lemma_sub_borrow(m: Machine, x: u8, y: u8, random: u8)
    requires
        m.wf(),
        x < 15,
        y < 16,
    ensures
        execute_spec(m, Instruction::Sub { x, y }, random) matches Ok(m1) && m1.v[15] == (if m.v[
            x as int] > m.v[y as int] {
            1u8
        } else {
            0u8
        }) && m1.v[x as int] == (m.v[x as int] - m.v[y as int]) % 256,
{
}

/// Drawing the same sprite twice at the same place restores the framebuffer;
/// only `VF` differs, and it reports the collisions of the second draw.
pub proof fn lemma_draw_twice_restores(m: Machine, x: u8, y: u8, n: u8, random: u8)
    requires
        m.wf(),
        x < 15,
        y < 15,
        n < 16,
        n == 0 || m.i + n <= MEMORY_SIZE,
    ensures
        execute_spec(m, Instruction::Draw { x, y, n }, random) matches Ok(m1) && execute_spec(
            m1,
            Instruction::Draw { x, y, n },
            random,
        ) matches Ok(m2) && m2 == (Machine { v: m2.v, ..m }) && m2.v == m.v.update(
            15,
            if draw_collides(m1, m.v[x as int], m.v[y as int], n as int) {
                1u8
            } else {
                0u8
            },
        ),
{
    let ins = Instruction::Draw { x, y, n };
    let m1 = execute_spec(m, ins, random)->Ok_0;
    let m2 = execute_spec(m1, ins, random)->Ok_0;
    let (vx, vy) = (m.v[x as int], m.v[y as int]);
    assert(m1.v[x as int] == vx && m1.v[y as int] == vy);
    assert forall|k: int| 0 <= k < SCREEN_SIZE implies sprite_covers(m1, vx, vy, n as int, k)
        == sprite_covers(m, vx, vy, n as int, k) by {}
    assert(m2.gfx =~= m.gfx);
    assert(m2.v =~= m.v.update(15, if draw_collides(m1, vx, vy, n as int) { 1u8 } else { 0u8 }));
    assert(m2 =~= (Machine { v: m2.v, ..m }));
}

/// A call followed, at its target, by a return comes back to the instruction
/// after the call, with the stack as it was.
pub proof fn lemma_call_return(m: Machine, addr: u16, r1: u8, r2: u8)
    requires
        m.wf(),
        m.stack.len() < STACK_DEPTH,
        m.pc + 1 < MEMORY_SIZE,
        fetched_word(m) == 0x2000 + addr,
        addr + 1 < MEMORY_SIZE,
        m.memory[addr as int] == 0x00,
        m.memory[addr + 1] == 0xEE,
    ensures
        step_spec(m, r1) matches Ok(m1) && m1.stack.len() == m.stack.len() + 1 && step_spec(m1, r2)
            == Ok::<Machine, EngineError>(m.with_pc((m.pc + 2) as u16)),
{
    let w = fetched_word(m);
    lemma_word_of_nibbles(w);
    assert(nibbles_of(w).0 == 2);
    assert(decoded(w) == Some(Instruction::Call { addr }));
    let m1 = step_spec(m, r1)->Ok_0;
    assert(fetched_word(m1) == 0x00EE);
    assert(decoded(0x00EE) == Some(Instruction::Ret));
    assert(step_spec(m1, r2)->Ok_0 =~= m.with_pc((m.pc + 2) as u16));
}

/// Storing `V0..=Vx` at `I` and then loading `V0..=Vx` from the same `I`,
/// whatever the registers hold in between, gives back the stored values.
pub proof fn lemma_store_load_round_trip(m: Machine, m2: Machine, x: u8, random: u8)
    requires
        m.wf(),
        m2.wf(),
        x < 16,
        writable(m, x + 1),
        execute_spec(m, Instruction::LdIVx { x }, random) matches Ok(m1) && m2.memory == m1.memory
            && m2.i == m1.i,
    ensures
        execute_spec(m, Instruction::LdIVx { x }, random) is Ok,
        execute_spec(m2, Instruction::LdVxI { x }, random) matches Ok(m3) && forall|j: int|
            0 <= j <= x ==> #[trigger] m3.v[j] == m.v[j],
{
}

/// A word that matches no instruction pattern stops the cycle with
/// `UnknownOpcode` carrying that word.
pub proof fn lemma_unknown_opcode(m: Machine, random: u8)
    requires
        m.wf(),
        m.pc + 1 < MEMORY_SIZE,
        decoded(fetched_word(m)) is None,
    ensures
        step_spec(m, random) == Err::<Machine, EngineError>(
            EngineError::UnknownOpcode(fetched_word(m)),
        ),
{
}

} // verus!
