use vstd::prelude::*;

verus! {

/// The four 4-bit fields of an instruction word, most significant first.
pub open spec fn nibbles_of(w: u16) -> (u16, u16, u16, u16) {
    (w / 0x1000, w % 0x1000 / 0x100, w % 0x100 / 0x10, w % 0x10)
}

/// Splits a 16-bit instruction word into its four nibbles.
pub fn split_opcode(opcode: u16) -> (r: (u16, u16, u16, u16))
    ensures
        r == nibbles_of(opcode),
        r.0 < 16 && r.1 < 16 && r.2 < 16 && r.3 < 16,
{
    let n1 = opcode / 0x1000;
    let n2 = opcode % 0x1000 / 0x100;
    let n3 = opcode % 0x100 / 0x10;
    let n4 = opcode % 0x10 / 0x1;
    (n1, n2, n3, n4)
}


/// The word whose nibbles are `n`, most significant first.
pub open spec fn word_of(n: (u16, u16, u16, u16)) -> int {
    n.0 * 0x1000 + n.1 * 0x100 + n.2 * 0x10 + n.3
}

/// Each of the nibbles is a single hexadecimal digit.
pub open spec fn are_nibbles(n: (u16, u16, u16, u16)) -> bool {
    n.0 < 16 && n.1 < 16 && n.2 < 16 && n.3 < 16
}

/// Joining the nibbles of a word gives the word back.
pub proof fn lemma_word_of_nibbles(w: u16)
    ensures
        word_of(nibbles_of(w)) == w,
        are_nibbles(nibbles_of(w)),
{
}

/// Joins hexadecimal digits, most significant first, into one number.
pub trait JoinHexInt {
    /// Every part is a single hexadecimal digit.
    spec fn hex_digits(&self) -> bool;

    /// The number that the digits spell.
    spec fn joined(&self) -> int;

    fn join_hex_ints(&self) -> (r: u16)
        requires
            self.hex_digits(),
        ensures
            r as int == self.joined(),
    ;
}

impl JoinHexInt for (u16, u16) {
    open spec fn hex_digits(&self) -> bool {
        self.0 < 16 && self.1 < 16
    }

    open spec fn joined(&self) -> int {
        self.0 * 0x10 + self.1
    }

    fn join_hex_ints(&self) -> (r: u16) {
        let (a, b) = *self;
        a * 0x10 + b
    }
}

impl JoinHexInt for (u16, u16, u16) {
    open spec fn hex_digits(&self) -> bool {
        self.0 < 16 && self.1 < 16 && self.2 < 16
    }

    open spec fn joined(&self) -> int {
        self.0 * 0x100 + self.1 * 0x10 + self.2
    }

    fn join_hex_ints(&self) -> (r: u16) {
        let (a, b, c) = *self;
        a * 0x100 + b * 0x10 + c
    }
}


/// One decoded instruction with its operands.
///
/// Register operands (`x`, `y`) and the sprite height `n` are single nibbles;
/// `addr` is a 12-bit address and `kk` an 8-bit immediate.
#[derive(Clone, Copy, Debug, PartialEq, Eq, Structural)]
pub enum Instruction {
    Cls,
    Ret,
    Jmp { addr: u16 },
    Call { addr: u16 },
    SeVxB { x: u8, kk: u8 },
    SneVxB { x: u8, kk: u8 },
    SeVxVy { x: u8, y: u8 },
    LdVxB { x: u8, kk: u8 },
    AddVxB { x: u8, kk: u8 },
    LdVxVy { x: u8, y: u8 },
    Or { x: u8, y: u8 },
    And { x: u8, y: u8 },
    Xor { x: u8, y: u8 },
    AddVf { x: u8, y: u8 },
    Sub { x: u8, y: u8 },
    Shr { x: u8 },
    Subn { x: u8, y: u8 },
    Shl { x: u8 },
    SneVxVy { x: u8, y: u8 },
    LdIA { addr: u16 },
    JmpV0A { addr: u16 },
    Rnd { x: u8, kk: u8 },
    Draw { x: u8, y: u8, n: u8 },
    SkpVx { x: u8 },
    SknpVx { x: u8 },
    LdVxDt { x: u8 },
    LdVxK { x: u8 },
    LdDtVx { x: u8 },
    LdStVx { x: u8 },
    AddIVx { x: u8 },
    LdFVx { x: u8 },
    LdBVx { x: u8 },
    LdIVx { x: u8 },
    LdVxI { x: u8 },
}

impl Instruction {
    /// Operands are in range: registers and heights below 16, addresses below 4096.
    pub open spec fn wf(self) -> bool {
        match self {
            Instruction::Jmp { addr } | Instruction::Call { addr } | Instruction::LdIA { addr }
            | Instruction::JmpV0A { addr } => addr < 0x1000,
            Instruction::SeVxB { x, .. } | Instruction::SneVxB { x, .. } | Instruction::LdVxB {
                x,
                ..
            } | Instruction::AddVxB { x, .. } | Instruction::Rnd { x, .. } => x < 16,
            Instruction::SeVxVy { x, y } | Instruction::LdVxVy { x, y } | Instruction::Or { x, y }
            | Instruction::And { x, y } | Instruction::Xor { x, y } | Instruction::AddVf { x, y }
            | Instruction::Sub { x, y } | Instruction::Subn { x, y } | Instruction::SneVxVy {
                x,
                y,
            } => x < 16 && y < 16,
            Instruction::Draw { x, y, n } => x < 16 && y < 16 && n < 16,
            Instruction::Shr { x } | Instruction::Shl { x } | Instruction::SkpVx { x }
            | Instruction::SknpVx { x } | Instruction::LdVxDt { x } | Instruction::LdVxK { x }
            | Instruction::LdDtVx { x } | Instruction::LdStVx { x } | Instruction::AddIVx { x }
            | Instruction::LdFVx { x } | Instruction::LdBVx { x } | Instruction::LdIVx { x }
            | Instruction::LdVxI { x } => x < 16,
            Instruction::Cls | Instruction::Ret => true,
        }
    }
}

/// The dispatch table: which instruction a nibble tuple encodes, if any.
///
/// Patterns are tried in order; a wildcard position carries an operand.
pub open spec fn decode_spec(n: (u16, u16, u16, u16)) -> Option<Instruction> {
    let (n1, x, y, n4) = n;
    let addr = (x * 0x100 + y * 0x10 + n4) as u16;
    let kk = (y * 0x10 + n4) as u8;
    let xr = x as u8;
    let yr = y as u8;
    if n1 == 0x0 {
        if x == 0x0 && y == 0xE && n4 == 0x0 {
            Some(Instruction::Cls)
        } else if x == 0x0 && y == 0xE && n4 == 0xE {
            Some(Instruction::Ret)
        } else {
            None
        }
    } else if n1 == 0x1 {
        Some(Instruction::Jmp { addr })
    } else if n1 == 0x2 {
        Some(Instruction::Call { addr })
    } else if n1 == 0x3 {
        Some(Instruction::SeVxB { x: xr, kk })
    } else if n1 == 0x4 {
        Some(Instruction::SneVxB { x: xr, kk })
    } else if n1 == 0x5 {
        if n4 == 0x0 {
            Some(Instruction::SeVxVy { x: xr, y: yr })
        } else {
            None
        }
    } else if n1 == 0x6 {
        Some(Instruction::LdVxB { x: xr, kk })
    } else if n1 == 0x7 {
        Some(Instruction::AddVxB { x: xr, kk })
    } else if n1 == 0x8 {
        if n4 == 0x0 {
            Some(Instruction::LdVxVy { x: xr, y: yr })
        } else if n4 == 0x1 {
            Some(Instruction::Or { x: xr, y: yr })
        } else if n4 == 0x2 {
            Some(Instruction::And { x: xr, y: yr })
        } else if n4 == 0x3 {
            Some(Instruction::Xor { x: xr, y: yr })
        } else if n4 == 0x4 {
            Some(Instruction::AddVf { x: xr, y: yr })
        } else if n4 == 0x5 {
            Some(Instruction::Sub { x: xr, y: yr })
        } else if n4 == 0x6 {
            Some(Instruction::Shr { x: xr })
        } else if n4 == 0x7 {
            Some(Instruction::Subn { x: xr, y: yr })
        } else if n4 == 0xE {
            Some(Instruction::Shl { x: xr })
        } else {
            None
        }
    } else if n1 == 0x9 {
        if n4 == 0x0 {
            Some(Instruction::SneVxVy { x: xr, y: yr })
        } else {
            None
        }
    } else if n1 == 0xA {
        Some(Instruction::LdIA { addr })
    } else if n1 == 0xB {
        Some(Instruction::JmpV0A { addr })
    } else if n1 == 0xC {
        Some(Instruction::Rnd { x: xr, kk })
    } else if n1 == 0xD {
        Some(Instruction::Draw { x: xr, y: yr, n: n4 as u8 })
    } else if n1 == 0xE {
        if y == 0x9 && n4 == 0xE {
            Some(Instruction::SkpVx { x: xr })
        } else if y == 0xA && n4 == 0x1 {
            Some(Instruction::SknpVx { x: xr })
        } else {
            None
        }
    } else if n1 == 0xF {
        if y == 0x0 && n4 == 0x7 {
            Some(Instruction::LdVxDt { x: xr })
        } else if y == 0x0 && n4 == 0xA {
            Some(Instruction::LdVxK { x: xr })
        } else if y == 0x1 && n4 == 0x5 {
            Some(Instruction::LdDtVx { x: xr })
        } else if y == 0x1 && n4 == 0x8 {
            Some(Instruction::LdStVx { x: xr })
        } else if y == 0x1 && n4 == 0xE {
            Some(Instruction::AddIVx { x: xr })
        } else if y == 0x2 && n4 == 0x9 {
            Some(Instruction::LdFVx { x: xr })
        } else if y == 0x3 && n4 == 0x3 {
            Some(Instruction::LdBVx { x: xr })
        } else if y == 0x5 && n4 == 0x5 {
            Some(Instruction::LdIVx { x: xr })
        } else if y == 0x6 && n4 == 0x5 {
            Some(Instruction::LdVxI { x: xr })
        } else {
            None
        }
    } else {
        None
    }
}

/// The instruction that a 16-bit word encodes, if any.
pub open spec fn decoded(w: u16) -> Option<Instruction> {
    decode_spec(nibbles_of(w))
}

/// Selects the instruction for a nibble tuple, or `None` for an unknown opcode.
pub fn decode(n: (u16, u16, u16, u16)) -> (r: Option<Instruction>)
    requires
        are_nibbles(n),
    ensures
        r == decode_spec(n),
        r matches Some(ins) ==> ins.wf(),
{
    let addr = (n.1, n.2, n.3).join_hex_ints();
    let kk = (n.2, n.3).join_hex_ints() as u8;
    let x = n.1 as u8;
    let y = n.2 as u8;
    match n {
        (0x0, 0x0, 0xE, 0x0) => Some(Instruction::Cls),
        (0x0, 0x0, 0xE, 0xE) => Some(Instruction::Ret),
        (0x1, _, _, _) => Some(Instruction::Jmp { addr }),
        (0x2, _, _, _) => Some(Instruction::Call { addr }),
        (0x3, _, _, _) => Some(Instruction::SeVxB { x, kk }),
        (0x4, _, _, _) => Some(Instruction::SneVxB { x, kk }),
        (0x5, _, _, 0x0) => Some(Instruction::SeVxVy { x, y }),
        (0x6, _, _, _) => Some(Instruction::LdVxB { x, kk }),
        (0x7, _, _, _) => Some(Instruction::AddVxB { x, kk }),
        (0x8, _, _, 0x0) => Some(Instruction::LdVxVy { x, y }),
        (0x8, _, _, 0x1) => Some(Instruction::Or { x, y }),
        (0x8, _, _, 0x2) => Some(Instruction::And { x, y }),
        (0x8, _, _, 0x3) => Some(Instruction::Xor { x, y }),
        (0x8, _, _, 0x4) => Some(Instruction::AddVf { x, y }),
        (0x8, _, _, 0x5) => Some(Instruction::Sub { x, y }),
        (0x8, _, _, 0x6) => Some(Instruction::Shr { x }),
        (0x8, _, _, 0x7) => Some(Instruction::Subn { x, y }),
        (0x8, _, _, 0xE) => Some(Instruction::Shl { x }),
        (0x9, _, _, 0x0) => Some(Instruction::SneVxVy { x, y }),
        (0xA, _, _, _) => Some(Instruction::LdIA { addr }),
        (0xB, _, _, _) => Some(Instruction::JmpV0A { addr }),
        (0xC, _, _, _) => Some(Instruction::Rnd { x, kk }),
        (0xD, _, _, h) => Some(Instruction::Draw { x, y, n: h as u8 }),
        (0xE, _, 0x9, 0xE) => Some(Instruction::SkpVx { x }),
        (0xE, _, 0xA, 0x1) => Some(Instruction::SknpVx { x }),
        (0xF, _, 0x0, 0x7) => Some(Instruction::LdVxDt { x }),
        (0xF, _, 0x0, 0xA) => Some(Instruction::LdVxK { x }),
        (0xF, _, 0x1, 0x5) => Some(Instruction::LdDtVx { x }),
        (0xF, _, 0x1, 0x8) => Some(Instruction::LdStVx { x }),
        (0xF, _, 0x1, 0xE) => Some(Instruction::AddIVx { x }),
        (0xF, _, 0x2, 0x9) => Some(Instruction::LdFVx { x }),
        (0xF, _, 0x3, 0x3) => Some(Instruction::LdBVx { x }),
        (0xF, _, 0x5, 0x5) => Some(Instruction::LdIVx { x }),
        (0xF, _, 0x6, 0x5) => Some(Instruction::LdVxI { x }),
        _ => None,
    }
}

} // verus!
