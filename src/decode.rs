use vstd::prelude::*;
use crate::target::Target;

verus! {

/// A decoded instruction. Register operands `x` and `y` and the nibble `n` are
/// below 16; an address operand `nnn` is below 4096.
#[derive(Clone, Copy, Debug, PartialEq, Eq, Structural)]
pub enum Instr {
    /// 00E0: clear the enabled planes.
    Cls,
    /// 00EE: return from a subroutine.
    Ret,
    /// 00FB: scroll the enabled planes right by four pixels.
    ScrollRight,
    /// 00FC: scroll the enabled planes left by four pixels.
    ScrollLeft,
    /// 00FD: exit; this core treats it as a no-op.
    Exit,
    /// 00FE: low-resolution mode.
    Low,
    /// 00FF: high-resolution mode.
    High,
    /// F000 nnnn: load the next word into I.
    LongIndex,
    /// F002: load the audio pattern from memory at I.
    LoadPattern,
    /// 00Cn: scroll the enabled planes down by n rows.
    ScrollDown { n: usize },
    /// 00Dn: scroll the enabled planes up by n rows.
    ScrollUp { n: usize },
    /// Ex9E: skip if the key in Vx is down.
    SkipKey { x: usize },
    /// ExA1: skip if the key in Vx is up.
    SkipNotKey { x: usize },
    /// Fx01: enable the planes in the bit mask x.
    SelectPlanes { x: usize },
    /// Fx07: Vx = delay timer.
    GetDelay { x: usize },
    /// Fx0A: wait for a key release and store the key in Vx.
    WaitKey { x: usize },
    /// Fx15: delay timer = Vx.
    SetDelay { x: usize },
    /// Fx18: sound timer = Vx.
    SetSound { x: usize },
    /// Fx1E: I = I + Vx.
    AddIndex { x: usize },
    /// Fx29: I = address of the small glyph for the digit in Vx.
    SmallDigit { x: usize },
    /// Fx30: I = address of the big glyph for the digit in Vx.
    BigDigit { x: usize },
    /// Fx33: store the decimal digits of Vx at I, I + 1, I + 2.
    Bcd { x: usize },
    /// Fx3A: set the audio pitch from Vx.
    SetPitch { x: usize },
    /// Fx55: store V0 to Vx at I.
    Store { x: usize },
    /// Fx65: load V0 to Vx from I.
    Load { x: usize },
    /// 5xy0: skip if Vx == Vy.
    SkipEqReg { x: usize, y: usize },
    /// 5xy2: store Vx to Vy at I.
    StoreRange { x: usize, y: usize },
    /// 5xy3: load Vx to Vy from I.
    LoadRange { x: usize, y: usize },
    /// 8xy0: Vx = Vy.
    Move { x: usize, y: usize },
    /// 8xy1: Vx = Vx | Vy.
    Or { x: usize, y: usize },
    /// 8xy2: Vx = Vx & Vy.
    And { x: usize, y: usize },
    /// 8xy3: Vx = Vx ^ Vy.
    Xor { x: usize, y: usize },
    /// 8xy4: Vx = Vx + Vy, VF = carry.
    Add { x: usize, y: usize },
    /// 8xy5: Vx = Vx - Vy, VF = no borrow.
    Sub { x: usize, y: usize },
    /// 8xy6: shift right by one, VF = the bit shifted out.
    Shr { x: usize, y: usize },
    /// 8xy7: Vx = Vy - Vx, VF = no borrow.
    SubN { x: usize, y: usize },
    /// 8xyE: shift left by one, VF = the bit shifted out.
    Shl { x: usize, y: usize },
    /// 1nnn: jump.
    Jump { nnn: usize },
    /// 2nnn: call a subroutine.
    Call { nnn: usize },
    /// 3xkk: skip if Vx == kk.
    SkipEqImm { x: usize, kk: u8 },
    /// 4xkk: skip if Vx != kk.
    SkipNeImm { x: usize, kk: u8 },
    /// 6xkk: Vx = kk.
    SetImm { x: usize, kk: u8 },
    /// 7xkk: Vx = Vx + kk, without carry.
    AddImm { x: usize, kk: u8 },
    /// 9xy0: skip if Vx != Vy.
    SkipNeReg { x: usize, y: usize },
    /// Annn: I = nnn.
    SetIndex { nnn: usize },
    /// Bnnn: jump with an offset from a register.
    JumpOffset { nnn: usize },
    /// Cxkk: Vx = a random byte & kk.
    Random { x: usize, kk: u8 },
    /// Dxyn: draw a sprite.
    Draw { x: usize, y: usize, n: usize },
}

/// The second nibble of a word.
pub open spec fn op_x(op: u16) -> usize {
    ((op >> 8u16) & 0xFu16) as usize
}

/// The third nibble of a word.
pub open spec fn op_y(op: u16) -> usize {
    ((op >> 4u16) & 0xFu16) as usize
}

/// The last nibble of a word.
pub open spec fn op_n(op: u16) -> usize {
    (op & 0xFu16) as usize
}

/// The low byte of a word.
pub open spec fn op_kk(op: u16) -> u8 {
    (op & 0xFFu16) as u8
}

/// The low twelve bits of a word.
pub open spec fn op_nnn(op: u16) -> usize {
    (op & 0xFFFu16) as usize
}

/// What `op` means under variant `t`, or `None` where it means nothing.
///
/// Encodings overlap, so the cases are tried in a fixed order: whole words first,
/// then words with a parameter in the last nibble, then those with one register
/// operand, then those with two, then the instruction classes of the first nibble.
/// A case that a variant lacks is skipped under that variant.
#[verifier::opaque]
pub open spec fn decode(op: u16, t: Target) -> Option<Instr> {
    let x = op_x(op);
    let y = op_y(op);
    let n = op_n(op);
    let kk = op_kk(op);
    let nnn = op_nnn(op);
    if op == 0x00E0 {
        Some(Instr::Cls)
    } else if op == 0x00EE {
        Some(Instr::Ret)
    } else if op == 0x00FB && t != Target::Chip {
        Some(Instr::ScrollRight)
    } else if op == 0x00FC && t != Target::Chip {
        Some(Instr::ScrollLeft)
    } else if op == 0x00FD && t != Target::Chip {
        Some(Instr::Exit)
    } else if op == 0x00FE && t != Target::Chip {
        Some(Instr::Low)
    } else if op == 0x00FF && t != Target::Chip {
        Some(Instr::High)
    } else if op == 0xF000 && t == Target::XO {
        Some(Instr::LongIndex)
    } else if op == 0xF002 && t == Target::XO {
        Some(Instr::LoadPattern)
    } else if op & 0xFFF0 == 0x00C0 && t != Target::Chip {
        Some(Instr::ScrollDown { n })
    } else if op & 0xFFF0 == 0x00D0 && t == Target::XO {
        Some(Instr::ScrollUp { n })
    } else if op & 0xF0FF == 0xE09E {
        Some(Instr::SkipKey { x })
    } else if op & 0xF0FF == 0xE0A1 {
        Some(Instr::SkipNotKey { x })
    } else if op & 0xF0FF == 0xF001 && t == Target::XO {
        Some(Instr::SelectPlanes { x })
    } else if op & 0xF0FF == 0xF007 {
        Some(Instr::GetDelay { x })
    } else if op & 0xF0FF == 0xF00A {
        Some(Instr::WaitKey { x })
    } else if op & 0xF0FF == 0xF015 {
        Some(Instr::SetDelay { x })
    } else if op & 0xF0FF == 0xF018 {
        Some(Instr::SetSound { x })
    } else if op & 0xF0FF == 0xF01E {
        Some(Instr::AddIndex { x })
    } else if op & 0xF0FF == 0xF029 {
        Some(Instr::SmallDigit { x })
    } else if op & 0xF0FF == 0xF030 && t != Target::Chip {
        Some(Instr::BigDigit { x })
    } else if op & 0xF0FF == 0xF033 {
        Some(Instr::Bcd { x })
    } else if op & 0xF0FF == 0xF03A && t == Target::XO {
        Some(Instr::SetPitch { x })
    } else if op & 0xF0FF == 0xF055 {
        Some(Instr::Store { x })
    } else if op & 0xF0FF == 0xF065 {
        Some(Instr::Load { x })
    } else if op & 0xF00F == 0x5000 {
        Some(Instr::SkipEqReg { x, y })
    } else if op & 0xF00F == 0x5002 && t == Target::XO {
        Some(Instr::StoreRange { x, y })
    } else if op & 0xF00F == 0x5003 && t == Target::XO {
        Some(Instr::LoadRange { x, y })
    } else if op & 0xF00F == 0x8000 {
        Some(Instr::Move { x, y })
    } else if op & 0xF00F == 0x8001 {
        Some(Instr::Or { x, y })
    } else if op & 0xF00F == 0x8002 {
        Some(Instr::And { x, y })
    } else if op & 0xF00F == 0x8003 {
        Some(Instr::Xor { x, y })
    } else if op & 0xF00F == 0x8004 {
        Some(Instr::Add { x, y })
    } else if op & 0xF00F == 0x8005 {
        Some(Instr::Sub { x, y })
    } else if op & 0xF00F == 0x8006 {
        Some(Instr::Shr { x, y })
    } else if op & 0xF00F == 0x8007 {
        Some(Instr::SubN { x, y })
    } else if op & 0xF00F == 0x800E {
        Some(Instr::Shl { x, y })
    } else if op & 0xF000 == 0x1000 {
        Some(Instr::Jump { nnn })
    } else if op & 0xF000 == 0x2000 {
        Some(Instr::Call { nnn })
    } else if op & 0xF000 == 0x3000 {
        Some(Instr::SkipEqImm { x, kk })
    } else if op & 0xF000 == 0x4000 {
        Some(Instr::SkipNeImm { x, kk })
    } else if op & 0xF000 == 0x6000 {
        Some(Instr::SetImm { x, kk })
    } else if op & 0xF000 == 0x7000 {
        Some(Instr::AddImm { x, kk })
    } else if op & 0xF000 == 0x9000 {
        Some(Instr::SkipNeReg { x, y })
    } else if op & 0xF000 == 0xA000 {
        Some(Instr::SetIndex { nnn })
    } else if op & 0xF000 == 0xB000 {
        Some(Instr::JumpOffset { nnn })
    } else if op & 0xF000 == 0xC000 {
        Some(Instr::Random { x, kk })
    } else if op & 0xF000 == 0xD000 {
        Some(Instr::Draw { x, y, n })
    } else {
        None
    }
}

/// The operand bounds that every decoded instruction meets.
pub open spec fn operands_in_range(ins: Instr) -> bool {
    match ins {
        Instr::ScrollDown { n } => n < 16,
        Instr::ScrollUp { n } => n < 16,
        Instr::SkipKey { x } => x < 16,
        Instr::SkipNotKey { x } => x < 16,
        Instr::SelectPlanes { x } => x < 16,
        Instr::GetDelay { x } => x < 16,
        Instr::WaitKey { x } => x < 16,
        Instr::SetDelay { x } => x < 16,
        Instr::SetSound { x } => x < 16,
        Instr::AddIndex { x } => x < 16,
        Instr::SmallDigit { x } => x < 16,
        Instr::BigDigit { x } => x < 16,
        Instr::Bcd { x } => x < 16,
        Instr::SetPitch { x } => x < 16,
        Instr::Store { x } => x < 16,
        Instr::Load { x } => x < 16,
        Instr::SkipEqReg { x, y } => x < 16 && y < 16,
        Instr::StoreRange { x, y } => x < 16 && y < 16,
        Instr::LoadRange { x, y } => x < 16 && y < 16,
        Instr::Move { x, y } => x < 16 && y < 16,
        Instr::Or { x, y } => x < 16 && y < 16,
        Instr::And { x, y } => x < 16 && y < 16,
        Instr::Xor { x, y } => x < 16 && y < 16,
        Instr::Add { x, y } => x < 16 && y < 16,
        Instr::Sub { x, y } => x < 16 && y < 16,
        Instr::Shr { x, y } => x < 16 && y < 16,
        Instr::SubN { x, y } => x < 16 && y < 16,
        Instr::Shl { x, y } => x < 16 && y < 16,
        Instr::Jump { nnn } => nnn < 4096,
        Instr::Call { nnn } => nnn < 4096,
        Instr::SkipEqImm { x, kk } => x < 16,
        Instr::SkipNeImm { x, kk } => x < 16,
        Instr::SetImm { x, kk } => x < 16,
        Instr::AddImm { x, kk } => x < 16,
        Instr::SkipNeReg { x, y } => x < 16 && y < 16,
        Instr::SetIndex { nnn } => nnn < 4096,
        Instr::JumpOffset { nnn } => nnn < 4096,
        Instr::Random { x, kk } => x < 16,
        Instr::Draw { x, y, n } => x < 16 && y < 16 && n < 16,
        _ => true,
    }
}

/// Decodes `op` under variant `t`.
pub fn decode_op(op: u16, t: Target) -> (r: Option<Instr>)
    ensures
        r == decode(op, t),
        r matches Some(ins) ==> operands_in_range(ins),
{
    let x = ((op >> 8u16) & 0xFu16) as usize;
    let y = ((op >> 4u16) & 0xFu16) as usize;
    let n = (op & 0xFu16) as usize;
    let kk = (op & 0xFFu16) as u8;
    let nnn = (op & 0xFFFu16) as usize;
    proof {
        reveal(decode);
    }
    assert((op >> 8u16) & 0xFu16 < 16) by (bit_vector);
    assert((op >> 4u16) & 0xFu16 < 16) by (bit_vector);
    assert(op & 0xFu16 < 16) by (bit_vector);
    assert(op & 0xFFFu16 < 4096) by (bit_vector);
    if op == 0x00E0 {
        Some(Instr::Cls)
    } else if op == 0x00EE {
        Some(Instr::Ret)
    } else if op == 0x00FB && t != Target::Chip {
        Some(Instr::ScrollRight)
    } else if op == 0x00FC && t != Target::Chip {
        Some(Instr::ScrollLeft)
    } else if op == 0x00FD && t != Target::Chip {
        Some(Instr::Exit)
    } else if op == 0x00FE && t != Target::Chip {
        Some(Instr::Low)
    } else if op == 0x00FF && t != Target::Chip {
        Some(Instr::High)
    } else if op == 0xF000 && t == Target::XO {
        Some(Instr::LongIndex)
    } else if op == 0xF002 && t == Target::XO {
        Some(Instr::LoadPattern)
    } else if op & 0xFFF0 == 0x00C0 && t != Target::Chip {
        Some(Instr::ScrollDown { n })
    } else if op & 0xFFF0 == 0x00D0 && t == Target::XO {
        Some(Instr::ScrollUp { n })
    } else if op & 0xF0FF == 0xE09E {
        Some(Instr::SkipKey { x })
    } else if op & 0xF0FF == 0xE0A1 {
        Some(Instr::SkipNotKey { x })
    } else if op & 0xF0FF == 0xF001 && t == Target::XO {
        Some(Instr::SelectPlanes { x })
    } else if op & 0xF0FF == 0xF007 {
        Some(Instr::GetDelay { x })
    } else if op & 0xF0FF == 0xF00A {
        Some(Instr::WaitKey { x })
    } else if op & 0xF0FF == 0xF015 {
        Some(Instr::SetDelay { x })
    } else if op & 0xF0FF == 0xF018 {
        Some(Instr::SetSound { x })
    } else if op & 0xF0FF == 0xF01E {
        Some(Instr::AddIndex { x })
    } else if op & 0xF0FF == 0xF029 {
        Some(Instr::SmallDigit { x })
    } else if op & 0xF0FF == 0xF030 && t != Target::Chip {
        Some(Instr::BigDigit { x })
    } else if op & 0xF0FF == 0xF033 {
        Some(Instr::Bcd { x })
    } else if op & 0xF0FF == 0xF03A && t == Target::XO {
        Some(Instr::SetPitch { x })
    } else if op & 0xF0FF == 0xF055 {
        Some(Instr::Store { x })
    } else if op & 0xF0FF == 0xF065 {
        Some(Instr::Load { x })
    } else if op & 0xF00F == 0x5000 {
        Some(Instr::SkipEqReg { x, y })
    } else if op & 0xF00F == 0x5002 && t == Target::XO {
        Some(Instr::StoreRange { x, y })
    } else if op & 0xF00F == 0x5003 && t == Target::XO {
        Some(Instr::LoadRange { x, y })
    } else if op & 0xF00F == 0x8000 {
        Some(Instr::Move { x, y })
    } else if op & 0xF00F == 0x8001 {
        Some(Instr::Or { x, y })
    } else if op & 0xF00F == 0x8002 {
        Some(Instr::And { x, y })
    } else if op & 0xF00F == 0x8003 {
        Some(Instr::Xor { x, y })
    } else if op & 0xF00F == 0x8004 {
        Some(Instr::Add { x, y })
    } else if op & 0xF00F == 0x8005 {
        Some(Instr::Sub { x, y })
    } else if op & 0xF00F == 0x8006 {
        Some(Instr::Shr { x, y })
    } else if op & 0xF00F == 0x8007 {
        Some(Instr::SubN { x, y })
    } else if op & 0xF00F == 0x800E {
        Some(Instr::Shl { x, y })
    } else if op & 0xF000 == 0x1000 {
        Some(Instr::Jump { nnn })
    } else if op & 0xF000 == 0x2000 {
        Some(Instr::Call { nnn })
    } else if op & 0xF000 == 0x3000 {
        Some(Instr::SkipEqImm { x, kk })
    } else if op & 0xF000 == 0x4000 {
        Some(Instr::SkipNeImm { x, kk })
    } else if op & 0xF000 == 0x6000 {
        Some(Instr::SetImm { x, kk })
    } else if op & 0xF000 == 0x7000 {
        Some(Instr::AddImm { x, kk })
    } else if op & 0xF000 == 0x9000 {
        Some(Instr::SkipNeReg { x, y })
    } else if op & 0xF000 == 0xA000 {
        Some(Instr::SetIndex { nnn })
    } else if op & 0xF000 == 0xB000 {
        Some(Instr::JumpOffset { nnn })
    } else if op & 0xF000 == 0xC000 {
        Some(Instr::Random { x, kk })
    } else if op & 0xF000 == 0xD000 {
        Some(Instr::Draw { x, y, n })
    } else {
        None
    }
}

} // verus!
