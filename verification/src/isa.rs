use crate::cpu::AddressMode;
use vstd::prelude::*;

verus! {

/// What an instruction does, apart from how it finds its operand.
#[derive(Clone, Copy, Debug, PartialEq, Eq, Structural)]
pub enum Operation {
    Adc,
    And,
    Asl,
    Bcc,
    Bcs,
    Beq,
    Bit,
    Bmi,
    Bne,
    Bpl,
    Brk,
    Bvc,
    Bvs,
    Clc,
    Cld,
    Cli,
    Clv,
    Cmp,
    Cpx,
    Cpy,
    Dcp,
    Dec,
    Dex,
    Dey,
    Eor,
    Inc,
    Inx,
    Iny,
    Isb,
    Jmp,
    Jsr,
    Lax,
    Lda,
    Ldx,
    Ldy,
    Lsr,
    Nop,
    Ora,
    Pha,
    Php,
    Pla,
    Plp,
    Rla,
    Rol,
    Ror,
    Rra,
    Rti,
    Rts,
    Sax,
    Sbc,
    Sec,
    Sed,
    Sei,
    Slo,
    Sre,
    Sta,
    Stx,
    Sty,
    Tax,
    Tay,
    Tsx,
    Txa,
    Txs,
    Tya,
}

/// The operation an opcode encodes, for the opcodes this processor runs.
/// Every other opcode halts it.
pub open spec fn operation_of(opcode: u8) -> Option<Operation> {
    match opcode {
        0x61 | 0x65 | 0x69 | 0x6D | 0x71 | 0x75 | 0x79 | 0x7D => Some(Operation::Adc),
        0x21 | 0x25 | 0x29 | 0x2D | 0x31 | 0x35 | 0x39 | 0x3D => Some(Operation::And),
        0x06 | 0x0A | 0x0E | 0x16 | 0x1E => Some(Operation::Asl),
        0x90 => Some(Operation::Bcc),
        0xB0 => Some(Operation::Bcs),
        0xF0 => Some(Operation::Beq),
        0x24 | 0x2C => Some(Operation::Bit),
        0x30 => Some(Operation::Bmi),
        0xD0 => Some(Operation::Bne),
        0x10 => Some(Operation::Bpl),
        0x00 => Some(Operation::Brk),
        0x50 => Some(Operation::Bvc),
        0x70 => Some(Operation::Bvs),
        0x18 => Some(Operation::Clc),
        0xD8 => Some(Operation::Cld),
        0x58 => Some(Operation::Cli),
        0xB8 => Some(Operation::Clv),
        0xC1 | 0xC5 | 0xC9 | 0xCD | 0xD1 | 0xD5 | 0xD9 | 0xDD => Some(Operation::Cmp),
        0xE0 | 0xE4 | 0xEC => Some(Operation::Cpx),
        0xC0 | 0xC4 | 0xCC => Some(Operation::Cpy),
        0xC3 | 0xC7 | 0xCF | 0xD3 | 0xD7 | 0xDB | 0xDF => Some(Operation::Dcp),
        0xC6 | 0xCE | 0xD6 | 0xDE => Some(Operation::Dec),
        0xCA => Some(Operation::Dex),
        0x88 => Some(Operation::Dey),
        0x41 | 0x45 | 0x49 | 0x4D | 0x51 | 0x55 | 0x59 | 0x5D => Some(Operation::Eor),
        0xE6 | 0xEE | 0xF6 | 0xFE => Some(Operation::Inc),
        0xE8 => Some(Operation::Inx),
        0xC8 => Some(Operation::Iny),
        0xE3 | 0xE7 | 0xEF | 0xF3 | 0xF7 | 0xFB | 0xFF => Some(Operation::Isb),
        0x4C | 0x6C => Some(Operation::Jmp),
        0x20 => Some(Operation::Jsr),
        0xA3 | 0xA7 | 0xAF | 0xB3 | 0xB7 | 0xBF => Some(Operation::Lax),
        0xA1 | 0xA5 | 0xA9 | 0xAD | 0xB1 | 0xB5 | 0xB9 | 0xBD => Some(Operation::Lda),
        0xA2 | 0xA6 | 0xAE | 0xB6 | 0xBE => Some(Operation::Ldx),
        0xA0 | 0xA4 | 0xAC | 0xB4 | 0xBC => Some(Operation::Ldy),
        0x46 | 0x4A | 0x4E | 0x56 | 0x5E => Some(Operation::Lsr),
        0x04 | 0x0C | 0x14 | 0x1A | 0x1C | 0x34 | 0x3A | 0x3C | 0x44 | 0x54 | 0x5A |
        0x5C | 0x64 | 0x74 | 0x7A | 0x7C | 0x80 | 0x89 | 0xD4 | 0xDA | 0xDC | 0xEA |
        0xF4 | 0xFC => Some(Operation::Nop),
        0x01 | 0x05 | 0x09 | 0x0D | 0x11 | 0x15 | 0x19 | 0x1D => Some(Operation::Ora),
        0x48 => Some(Operation::Pha),
        0x08 => Some(Operation::Php),
        0x68 => Some(Operation::Pla),
        0x28 => Some(Operation::Plp),
        0x23 | 0x27 | 0x2F | 0x33 | 0x37 | 0x3B | 0x3F => Some(Operation::Rla),
        0x26 | 0x2A | 0x2E | 0x36 | 0x3E => Some(Operation::Rol),
        0x66 | 0x6A | 0x6E | 0x76 | 0x7E => Some(Operation::Ror),
        0x63 | 0x67 | 0x6F | 0x73 | 0x77 | 0x7B | 0x7F => Some(Operation::Rra),
        0x40 => Some(Operation::Rti),
        0x60 => Some(Operation::Rts),
        0x83 | 0x87 | 0x8F | 0x97 => Some(Operation::Sax),
        0xE1 | 0xE5 | 0xE9 | 0xEB | 0xED | 0xF1 | 0xF5 | 0xF9 | 0xFD => Some(Operation::Sbc),
        0x38 => Some(Operation::Sec),
        0xF8 => Some(Operation::Sed),
        0x78 => Some(Operation::Sei),
        0x03 | 0x07 | 0x0F | 0x13 | 0x17 | 0x1B | 0x1F => Some(Operation::Slo),
        0x43 | 0x47 | 0x4F | 0x53 | 0x57 | 0x5B | 0x5F => Some(Operation::Sre),
        0x81 | 0x85 | 0x8D | 0x91 | 0x95 | 0x99 | 0x9D => Some(Operation::Sta),
        0x86 | 0x8E | 0x96 => Some(Operation::Stx),
        0x84 | 0x8C | 0x94 => Some(Operation::Sty),
        0xAA => Some(Operation::Tax),
        0xA8 => Some(Operation::Tay),
        0xBA => Some(Operation::Tsx),
        0x8A => Some(Operation::Txa),
        0x9A => Some(Operation::Txs),
        0x98 => Some(Operation::Tya),
        _ => None,
    }
}

/// The addressing mode an opcode encodes. Opcodes that name no operand in
/// memory are listed under `Accumulator`.
pub open spec fn mode_of(opcode: u8) -> AddressMode {
    match opcode {
        0x09 | 0x29 | 0x49 | 0x69 | 0x80 | 0x89 | 0xA0 | 0xA2 | 0xA9 | 0xC0 | 0xC9 |
        0xE0 | 0xE9 | 0xEB => AddressMode::Immediate,
        0x04 | 0x05 | 0x06 | 0x07 | 0x24 | 0x25 | 0x26 | 0x27 | 0x44 | 0x45 | 0x46 |
        0x47 | 0x64 | 0x65 | 0x66 | 0x67 | 0x84 | 0x85 | 0x86 | 0x87 | 0xA4 | 0xA5 |
        0xA6 | 0xA7 | 0xC4 | 0xC5 | 0xC6 | 0xC7 | 0xE4 | 0xE5 | 0xE6 | 0xE7 => AddressMode::ZeroPage,
        0x14 | 0x15 | 0x16 | 0x17 | 0x34 | 0x35 | 0x36 | 0x37 | 0x54 | 0x55 | 0x56 |
        0x57 | 0x74 | 0x75 | 0x76 | 0x77 | 0x94 | 0x95 | 0xB4 | 0xB5 | 0xD4 | 0xD5 |
        0xD6 | 0xD7 | 0xF4 | 0xF5 | 0xF6 | 0xF7 => AddressMode::ZeroPageX,
        0x96 | 0x97 | 0xB6 | 0xB7 => AddressMode::ZeroPageY,
        0x0C | 0x0D | 0x0E | 0x0F | 0x20 | 0x2C | 0x2D | 0x2E | 0x2F | 0x4C | 0x4D |
        0x4E | 0x4F | 0x6D | 0x6E | 0x6F | 0x8C | 0x8D | 0x8E | 0x8F | 0xAC | 0xAD |
        0xAE | 0xAF | 0xCC | 0xCD | 0xCE | 0xCF | 0xEC | 0xED | 0xEE | 0xEF => AddressMode::Absolute,
        0x1C | 0x1D | 0x1E | 0x1F | 0x3C | 0x3D | 0x3E | 0x3F | 0x5C | 0x5D | 0x5E |
        0x5F | 0x7C | 0x7D | 0x7E | 0x7F | 0x9D | 0xBC | 0xBD | 0xDA | 0xDC | 0xDD |
        0xDE | 0xDF | 0xFC | 0xFD | 0xFE | 0xFF => AddressMode::AbsoluteX,
        0x19 | 0x1B | 0x39 | 0x3B | 0x59 | 0x5B | 0x79 | 0x7B | 0x99 | 0xB9 | 0xBE |
        0xBF | 0xD9 | 0xDB | 0xF9 | 0xFB => AddressMode::AbsoluteY,
        0x6C => AddressMode::Indirect,
        0x01 | 0x03 | 0x21 | 0x23 | 0x41 | 0x43 | 0x61 | 0x63 | 0x81 | 0x83 | 0xA1 |
        0xA3 | 0xC1 | 0xC3 | 0xE1 | 0xE3 => AddressMode::IndirectX,
        0x11 | 0x13 | 0x31 | 0x33 | 0x51 | 0x53 | 0x71 | 0x73 | 0x91 | 0xB1 | 0xB3 |
        0xD1 | 0xD3 | 0xF1 | 0xF3 => AddressMode::IndirectY,
        0x10 | 0x30 | 0x50 | 0x70 | 0x90 | 0xB0 | 0xD0 | 0xF0 => AddressMode::Relative,
        _ => AddressMode::Accumulator,
    }
}

/// Cycles an opcode takes before penalties: the reference timing of the
/// processor, without the cycle a read adds when indexing crosses a page and
/// without the cycles a taken branch adds.
pub open spec fn base_cycles(opcode: u8) -> i32 {
    match opcode {
        0x09 | 0x0A | 0x10 | 0x18 | 0x1A | 0x29 | 0x2A | 0x30 | 0x38 | 0x3A | 0x49 |
        0x4A | 0x50 | 0x58 | 0x5A | 0x69 | 0x6A | 0x70 | 0x78 | 0x7A | 0x80 | 0x88 |
        0x89 | 0x8A | 0x90 | 0x98 | 0x9A | 0xA0 | 0xA2 | 0xA8 | 0xA9 | 0xAA | 0xB0 |
        0xB8 | 0xBA | 0xC0 | 0xC8 | 0xC9 | 0xCA | 0xD0 | 0xD8 | 0xE0 | 0xE8 | 0xE9 |
        0xEA | 0xEB | 0xF0 | 0xF8 => 2,
        0x04 | 0x05 | 0x08 | 0x24 | 0x25 | 0x44 | 0x45 | 0x48 | 0x4C | 0x64 | 0x65 |
        0x84 | 0x85 | 0x86 | 0x87 | 0xA4 | 0xA5 | 0xA6 | 0xA7 | 0xC4 | 0xC5 | 0xE4 |
        0xE5 => 3,
        0x0C | 0x0D | 0x14 | 0x15 | 0x19 | 0x1C | 0x1D | 0x28 | 0x2C | 0x2D | 0x34 |
        0x35 | 0x39 | 0x3C | 0x3D | 0x4D | 0x54 | 0x55 | 0x59 | 0x5C | 0x5D | 0x68 |
        0x6D | 0x74 | 0x75 | 0x79 | 0x7C | 0x7D | 0x8C | 0x8D | 0x8E | 0x8F | 0x94 |
        0x95 | 0x96 | 0x97 | 0xAC | 0xAD | 0xAE | 0xAF | 0xB4 | 0xB5 | 0xB6 | 0xB7 |
        0xB9 | 0xBC | 0xBD | 0xBE | 0xBF | 0xCC | 0xCD | 0xD4 | 0xD5 | 0xD9 | 0xDA |
        0xDC | 0xDD | 0xEC | 0xED | 0xF4 | 0xF5 | 0xF9 | 0xFC | 0xFD => 4,
        0x06 | 0x07 | 0x11 | 0x26 | 0x27 | 0x31 | 0x46 | 0x47 | 0x51 | 0x66 | 0x67 |
        0x6C | 0x71 | 0x99 | 0x9D | 0xB1 | 0xB3 | 0xC6 | 0xC7 | 0xD1 | 0xE6 | 0xE7 |
        0xF1 => 5,
        0x01 | 0x0E | 0x0F | 0x16 | 0x17 | 0x20 | 0x21 | 0x2E | 0x2F | 0x36 | 0x37 |
        0x40 | 0x41 | 0x4E | 0x4F | 0x56 | 0x57 | 0x60 | 0x61 | 0x6E | 0x6F | 0x76 |
        0x77 | 0x81 | 0x83 | 0x91 | 0xA1 | 0xA3 | 0xC1 | 0xCE | 0xCF | 0xD6 | 0xD7 |
        0xE1 | 0xEE | 0xEF | 0xF6 | 0xF7 => 6,
        0x00 | 0x1B | 0x1E | 0x1F | 0x3B | 0x3E | 0x3F | 0x5B | 0x5E | 0x5F | 0x7B |
        0x7E | 0x7F | 0xDB | 0xDE | 0xDF | 0xFB | 0xFE | 0xFF => 7,
        0x03 | 0x13 | 0x23 | 0x33 | 0x43 | 0x53 | 0x63 | 0x73 | 0xC3 | 0xD3 | 0xE3 |
        0xF3 => 8,
        _ => 0,
    }
}

} // verus!
