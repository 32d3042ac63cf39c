use vstd::prelude::*;

verus! {

pub const FLAG_C: u8 = 0x01;

pub const FLAG_Z: u8 = 0x02;

pub const FLAG_I: u8 = 0x04;

pub const FLAG_D: u8 = 0x08;

pub const FLAG_B: u8 = 0x10;

pub const FLAG_U: u8 = 0x20;

pub const FLAG_V: u8 = 0x40;

pub const FLAG_N: u8 = 0x80;

/// The status byte with the bits of `flag` set or cleared.
pub open spec fn with_flag(status: u8, flag: u8, on: bool) -> u8 {
    if on {
        status | flag
    } else {
        status & !flag
    }
}

/// Some bit of `flag` is set in the status byte.
pub open spec fn has_flag(status: u8, flag: u8) -> bool {
    status & flag != 0
}

/// The status byte with Z and N taken from `val`: Z when it is zero, N from
/// its bit 7.
pub open spec fn with_zn(status: u8, val: u8) -> u8 {
    with_flag(with_flag(status, FLAG_Z, val == 0), FLAG_N, val & 0x80 != 0)
}

/// The carry flag as a number.
pub open spec fn carry_of(status: u8) -> u8 {
    if has_flag(status, FLAG_C) {
        1
    } else {
        0
    }
}

/// Low byte of a sum of bytes.
pub open spec fn low_byte(sum: u16) -> u8 {
    (sum % 256) as u8
}

/// ADC: status and accumulator after adding `m` and the carry to `a`.
/// C is the carry out of bit 7, V is set when both operands have the sign
/// the result lacks, Z and N come from the result.
pub open spec fn add_spec(status: u8, a: u8, m: u8) -> (u8, u8) {
    let sum = (a as u16 + m as u16 + carry_of(status) as u16) as u16;
    let result = low_byte(sum);
    (
        with_flag(
            with_zn(with_flag(status, FLAG_C, sum > 0xFF), result),
            FLAG_V,
            (!(a ^ m) & (a ^ result) & 0x80) != 0,
        ),
        result,
    )
}

/// SBC: status and accumulator after subtracting `m` and the borrow from
/// `a`, which is the addition of the complement of `m`.
pub open spec fn subtract_spec(status: u8, a: u8, m: u8) -> (u8, u8) {
    let sum = (a as u16 + (!m) as u16 + carry_of(status) as u16) as u16;
    let result = low_byte(sum);
    (
        with_flag(
            with_zn(with_flag(status, FLAG_C, sum > 0xFF), result),
            FLAG_V,
            ((a ^ result) & ((!m) ^ result) & 0x80) != 0,
        ),
        result,
    )
}

/// CMP, CPX, CPY: the status after comparing a register with `m`. Z when
/// they are equal, C when the register is not less, N from bit 7 of the
/// difference.
pub open spec fn compare_spec(status: u8, reg: u8, m: u8) -> u8 {
    with_flag(
        with_flag(with_flag(status, FLAG_Z, reg == m), FLAG_C, reg >= m),
        FLAG_N,
        (reg.wrapping_sub(m) & 0x80) != 0,
    )
}

/// BIT: Z from `a & m`, V from bit 6 of `m`, N from bit 7 of `m`.
pub open spec fn bit_test_spec(status: u8, a: u8, m: u8) -> u8 {
    with_flag(
        with_flag(with_flag(status, FLAG_Z, (m & a) == 0), FLAG_V, (m & 0x40) != 0),
        FLAG_N,
        (m & 0x80) != 0,
    )
}

/// ASL: `m` shifted left; C is the bit shifted out.
pub open spec fn shift_left_spec(status: u8, m: u8) -> (u8, u8) {
    (with_flag(with_zn(status, m << 1), FLAG_C, (m & 0x80) != 0), m << 1)
}

/// LSR: `m` shifted right; C is the bit shifted out.
pub open spec fn shift_right_spec(status: u8, m: u8) -> (u8, u8) {
    (with_flag(with_zn(status, m >> 1), FLAG_C, (m & 0x01) != 0), m >> 1)
}

/// ROL: `m` rotated left through the carry.
pub open spec fn rotate_left_spec(status: u8, m: u8) -> (u8, u8) {
    let result = (m << 1) | carry_of(status);
    (with_zn(with_flag(status, FLAG_C, (m & 0x80) != 0), result), result)
}

/// ROR: `m` rotated right through the carry.
pub open spec fn rotate_right_spec(status: u8, m: u8) -> (u8, u8) {
    let result = (m >> 1) | (carry_of(status) << 7);
    (with_zn(with_flag(status, FLAG_C, (m & 0x01) != 0), result), result)
}

/// The status byte as the stack sees it after PLP or RTI: B clear, U set.
pub open spec fn pulled_status(val: u8) -> u8 {
    (val & !FLAG_B) | FLAG_U
}

/// What lands on the stack. A status byte pushed by BRK or PHP carries B and
/// U; one pushed by an interrupt carries U and not B; in both the other six
/// flags are the processor's own. A status byte pulled back never sets B in
/// the processor and always sets U.
pub proof fn lemma_stacked_status_bits(status: u8)
    by (bit_vector)
    ensures
        (status | 0x10u8 | 0x20u8) & 0x30 == 0x30,
        (status | 0x10u8 | 0x20u8) & 0xCF == status & 0xCF,
        ((status & !0x10u8) | 0x20u8) & 0x30 == 0x20,
        ((status & !0x10u8) | 0x20u8) & 0xCF == status & 0xCF,
{
}

pub fn set_status_flag(status: u8, flag: u8, on: bool) -> (r: u8)
    ensures
        r == with_flag(status, flag, on),
{
    if on {
        status | flag
    } else {
        status & !flag
    }
}

pub fn status_has(status: u8, flag: u8) -> (r: bool)
    ensures
        r == has_flag(status, flag),
{
    status & flag != 0
}

pub fn set_status_zn(status: u8, val: u8) -> (r: u8)
    ensures
        r == with_zn(status, val),
{
    set_status_flag(set_status_flag(status, FLAG_Z, val == 0), FLAG_N, val & 0x80 != 0)
}

pub fn carry(status: u8) -> (r: u8)
    ensures
        r == carry_of(status),
        r <= 1,
{
    if status_has(status, FLAG_C) {
        1
    } else {
        0
    }
}

pub fn add_with_carry(status: u8, a: u8, m: u8) -> (r: (u8, u8))
    ensures
        r == add_spec(status, a, m),
{
    let sum: u16 = a as u16 + m as u16 + carry(status) as u16;
    let result: u8 = (sum % 256) as u8;
    let carried = set_status_flag(status, FLAG_C, sum > 0xFF);
    let signed = set_status_zn(carried, result);
    (set_status_flag(signed, FLAG_V, (!(a ^ m) & (a ^ result) & 0x80) != 0), result)
}

pub fn subtract_with_borrow(status: u8, a: u8, m: u8) -> (r: (u8, u8))
    ensures
        r == subtract_spec(status, a, m),
{
    let sum: u16 = a as u16 + (!m) as u16 + carry(status) as u16;
    let result: u8 = (sum % 256) as u8;
    let carried = set_status_flag(status, FLAG_C, sum > 0xFF);
    let signed = set_status_zn(carried, result);
    (set_status_flag(signed, FLAG_V, ((a ^ result) & ((!m) ^ result) & 0x80) != 0), result)
}

pub fn compare(status: u8, reg: u8, m: u8) -> (r: u8)
    ensures
        r == compare_spec(status, reg, m),
{
    let zero = set_status_flag(status, FLAG_Z, reg == m);
    let carried = set_status_flag(zero, FLAG_C, reg >= m);
    set_status_flag(carried, FLAG_N, (reg.wrapping_sub(m) & 0x80) != 0)
}

pub fn bit_test(status: u8, a: u8, m: u8) -> (r: u8)
    ensures
        r == bit_test_spec(status, a, m),
{
    let zero = set_status_flag(status, FLAG_Z, (m & a) == 0);
    let over = set_status_flag(zero, FLAG_V, (m & 0x40) != 0);
    set_status_flag(over, FLAG_N, (m & 0x80) != 0)
}

pub fn shift_left(status: u8, m: u8) -> (r: (u8, u8))
    ensures
        r == shift_left_spec(status, m),
{
    (set_status_flag(set_status_zn(status, m << 1), FLAG_C, (m & 0x80) != 0), m << 1)
}

pub fn shift_right(status: u8, m: u8) -> (r: (u8, u8))
    ensures
        r == shift_right_spec(status, m),
{
    (set_status_flag(set_status_zn(status, m >> 1), FLAG_C, (m & 0x01) != 0), m >> 1)
}

pub fn rotate_left(status: u8, m: u8) -> (r: (u8, u8))
    ensures
        r == rotate_left_spec(status, m),
{
    let result = (m << 1) | carry(status);
    (set_status_zn(set_status_flag(status, FLAG_C, (m & 0x80) != 0), result), result)
}

pub fn rotate_right(status: u8, m: u8) -> (r: (u8, u8))
    ensures
        r == rotate_right_spec(status, m),
{
    let result = (m >> 1) | (carry(status) << 7);
    (set_status_zn(set_status_flag(status, FLAG_C, (m & 0x01) != 0), result), result)
}

} // verus!
