//! The barrel shifter: the four shift kinds and what each makes of a word and
//! of the carry flag, for every shift amount.

use crate::bitwise::{bit_at, get_bit, lemma_equal_bits_equal_words, signed};
use vstd::arithmetic::div_mod::{lemma_div_multiples_vanish_fancy, lemma_hoist_over_denominator};
use vstd::arithmetic::mul::{lemma_mul_strict_inequality, lemma_mul_upper_bound};
use vstd::arithmetic::power2::{
    lemma2_to64, lemma_pow2_adds, lemma_pow2_pos, lemma_pow2_strictly_increases, pow2,
};
use vstd::bits::{
    low_bits_mask, lemma_u32_low_bits_mask_is_mod, lemma_u32_pow2_no_overflow,
    lemma_u32_shl_is_mul, lemma_u32_shr_is_div, lemma_u64_shl_is_mul, lemma_u64_shr_is_div,
};
use vstd::prelude::*;
use vstd::string::*;

verus! {

/// The operation that the barrel shifter applies to a word.
#[derive(Clone, Copy, Debug, PartialEq, Eq, Structural)]
pub enum ShiftKind {
    /// Logical shift left.
    Lsl,
    /// Logical shift right.
    Lsr,
    /// Arithmetic shift right, which repeats the sign bit.
    Asr,
    /// Rotate right.
    Ror,
}

impl ShiftKind {
    /// The kind that a two-bit shift field encodes.
    pub open spec fn decoded(field: u32) -> ShiftKind {
        if field == 0 {
            ShiftKind::Lsl
        } else if field == 1 {
            ShiftKind::Lsr
        } else if field == 2 {
            ShiftKind::Asr
        } else {
            ShiftKind::Ror
        }
    }

    /// The kind's name in assembly text.
    pub open spec fn text(self) -> Seq<char> {
        match self {
            ShiftKind::Lsl => seq!['L', 'S', 'L'],
            ShiftKind::Lsr => seq!['L', 'S', 'R'],
            ShiftKind::Asr => seq!['A', 'S', 'R'],
            ShiftKind::Ror => seq!['R', 'O', 'R'],
        }
    }

    /// Decodes the two-bit shift field of an instruction word.
    pub fn from(field: u32) -> (kind: ShiftKind)
        requires
            field <= 3,
        ensures
            kind == ShiftKind::decoded(field),
    {
        match field {
            0 => ShiftKind::Lsl,
            1 => ShiftKind::Lsr,
            2 => ShiftKind::Asr,
            3 => ShiftKind::Ror,
            _ => vstd::pervasive::unreached(),
        }
    }

    /// The kind's name in assembly text.
    pub fn as_str(&self) -> (text: &'static str)
        ensures
            text@ == self.text(),
    {
        proof {
            reveal_strlit("LSL");
            reveal_strlit("LSR");
            reveal_strlit("ASR");
            reveal_strlit("ROR");
        }
        let text = match self {
            ShiftKind::Lsl => "LSL",
            ShiftKind::Lsr => "LSR",
            ShiftKind::Asr => "ASR",
            ShiftKind::Ror => "ROR",
        };
        assert(text@ =~= self.text());
        text
    }

    /// The kind's name in assembly text, as an owned string.
    pub fn to_string(&self) -> (text: String)
        ensures
            text@ == self.text(),
    {
        String::from_str(self.as_str())
    }
}

/// What an operation of the arithmetic-logic unit hands back: the word and the
/// four condition flags. The barrel shifter fills in `result` and `carry` only.
#[derive(Clone, Copy, Debug, PartialEq, Eq, Structural)]
pub struct ArithmeticOpResult {
    pub result: u32,
    pub carry: bool,
    pub overflow: bool,
    pub sign: bool,
    pub zero: bool,
}

impl Default for ArithmeticOpResult {
    fn default() -> (cleared: Self)
        ensures
            cleared == (ArithmeticOpResult {
                result: 0,
                carry: false,
                overflow: false,
                sign: false,
                zero: false,
            }),
    {
        ArithmeticOpResult { result: 0, carry: false, overflow: false, sign: false, zero: false }
    }
}

/// A shifter output: the given word and carry, the other flags cleared.
pub open spec fn shifted(result: u32, carry: bool) -> ArithmeticOpResult {
    ArithmeticOpResult { result, carry, overflow: false, sign: false, zero: false }
}

/// `value` rotated right by `amount` places, `amount` counted modulo 32.
pub open spec fn rotated_right(value: u32, amount: u32) -> u32 {
    let places = amount % 32;
    if places == 0 {
        value
    } else {
        (value >> places) | (value << ((32 - places) as u32))
    }
}

/// Logical shift left. Amount 0 leaves word and carry alone; for 1 to 32 the
/// carry is the last bit pushed out at the top; beyond 32 nothing is left.
pub open spec fn lsl(amount: u32, value: u32, carry_in: bool) -> ArithmeticOpResult {
    if amount == 0 {
        shifted(value, carry_in)
    } else if amount <= 32 {
        shifted(((value as u64) << amount) as u32, bit_at(value, (32 - amount) as u32))
    } else {
        shifted(0, false)
    }
}

/// Logical shift right. Amount 0 stands for a shift by 32; for 1 to 32 the
/// carry is the last bit pushed out at the bottom; beyond 32 nothing is left.
pub open spec fn lsr(amount: u32, value: u32) -> ArithmeticOpResult {
    if amount == 0 {
        shifted(0, bit_at(value, 31))
    } else if amount <= 32 {
        shifted(((value as u64) >> amount) as u32, bit_at(value, (amount - 1) as u32))
    } else {
        shifted(0, false)
    }
}

/// Arithmetic shift right. For 1 to 31 the sign bit fills the vacated places
/// and the carry is the last bit pushed out; every other amount, 0 included,
/// leaves the sign bit in all 32 places and in the carry.
pub open spec fn asr(amount: u32, value: u32) -> ArithmeticOpResult {
    if 1 <= amount <= 31 {
        shifted(((value as i32) >> amount) as u32, bit_at(value, (amount - 1) as u32))
    } else {
        shifted(((value as i32) >> 31u32) as u32, bit_at(value, 31))
    }
}

/// The amount that a rotation is carried out with: amounts above 32 are
/// taken modulo 32, a multiple of 32 counting as 32.
pub open spec fn ror_amount(amount: u32) -> u32 {
    if amount <= 32 {
        amount
    } else if amount % 32 == 0 {
        32
    } else {
        amount % 32
    }
}

/// Rotate right. Amount 0 stands for the rotation by one place through the
/// carry: the carry comes in at the top and bit 0 goes out into it. A rotation
/// by 1 to 31 puts the last bit that wrapped round into the carry; a rotation
/// by 32 keeps the word and puts bit 31 into the carry.
pub open spec fn ror(amount: u32, value: u32, carry_in: bool) -> ArithmeticOpResult {
    let places = ror_amount(amount);
    if places == 0 {
        shifted((value >> 1u32) | (if carry_in { 0x8000_0000u32 } else { 0u32 }), bit_at(value, 0))
    } else if places <= 31 {
        shifted(rotated_right(value, places), bit_at(value, (places - 1) as u32))
    } else {
        shifted(value, bit_at(value, 31))
    }
}

/// The output of the barrel shifter for each kind and amount.
pub open spec fn shifter_output(
    kind: ShiftKind,
    amount: u32,
    value: u32,
    carry_in: bool,
) -> ArithmeticOpResult {
    match kind {
        ShiftKind::Lsl => lsl(amount, value, carry_in),
        ShiftKind::Lsr => lsr(amount, value),
        ShiftKind::Asr => asr(amount, value),
        ShiftKind::Ror => ror(amount, value, carry_in),
    }
}

/// Rotates a word to the right; the amount counts modulo 32.
pub fn rotate_right(value: u32, amount: u32) -> (rotated: u32)
    ensures
        rotated == rotated_right(value, amount),
{
    let places: u32 = amount % 32;
    if places == 0 {
        value
    } else {
        (value >> places) | (value << (32 - places))
    }
}

/// Runs the barrel shifter: shifts `rm` by `shift_amount` as `kind` says, with
/// `carry` as the carry flag on entry.
pub fn shift(kind: ShiftKind, shift_amount: u32, rm: u32, carry: bool) -> (out: ArithmeticOpResult)
    ensures
        out == shifter_output(kind, shift_amount, rm, carry),
{
    match kind {
        ShiftKind::Lsl => {
            if shift_amount == 0 {
                ArithmeticOpResult { result: rm, carry, ..Default::default() }
            } else if shift_amount <= 32 {
                let wide: u64 = rm as u64;
                ArithmeticOpResult {
                    result: (wide << shift_amount) as u32,
                    carry: get_bit(rm, 32 - shift_amount),
                    ..Default::default()
                }
            } else {
                ArithmeticOpResult { carry: false, ..Default::default() }
            }
        },
        ShiftKind::Lsr => {
            if shift_amount == 0 {
                ArithmeticOpResult { result: 0, carry: get_bit(rm, 31), ..Default::default() }
            } else if shift_amount <= 32 {
                let wide: u64 = rm as u64;
                ArithmeticOpResult {
                    result: (wide >> shift_amount) as u32,
                    carry: get_bit(rm, shift_amount - 1),
                    ..Default::default()
                }
            } else {
                ArithmeticOpResult { result: 0, carry: false, ..Default::default() }
            }
        },
        ShiftKind::Asr => {
            if 1 <= shift_amount && shift_amount <= 31 {
                ArithmeticOpResult {
                    result: ((rm as i32) >> shift_amount) as u32,
                    carry: get_bit(rm, shift_amount - 1),
                    ..Default::default()
                }
            } else {
                ArithmeticOpResult {
                    result: ((rm as i32) >> 31u32) as u32,
                    carry: get_bit(rm, 31),
                    ..Default::default()
                }
            }
        },
        ShiftKind::Ror => {
            let mut places: u32 = shift_amount;
            if shift_amount > 32 {
                places = places % 32;
                if places == 0 {
                    places = 32;
                }
            }
            if places == 0 {
                let carry_bit: u32 = if carry { 0x8000_0000 } else { 0 };
                ArithmeticOpResult {
                    result: (rm >> 1u32) | carry_bit,
                    carry: get_bit(rm, 0),
                    ..Default::default()
                }
            } else if places <= 31 {
                ArithmeticOpResult {
                    result: rotate_right(rm, places),
                    carry: get_bit(rm, places - 1),
                    ..Default::default()
                }
            } else {
                ArithmeticOpResult { result: rm, carry: get_bit(rm, 31), ..Default::default() }
            }
        },
    }
}

/// Bit `index` of the shifter's output word, read off its inputs: the input bit
/// that lands there, or what fills the place when no input bit does.
pub open spec fn shifted_bit(
    kind: ShiftKind,
    amount: u32,
    value: u32,
    carry_in: bool,
    index: u32,
) -> bool {
    match kind {
        ShiftKind::Lsl => index >= amount && bit_at(value, (index - amount) as u32),
        ShiftKind::Lsr => {
            let places = if amount == 0 { 32 } else { amount };
            index + places <= 31 && bit_at(value, (index + places) as u32)
        },
        ShiftKind::Asr => {
            let places = if 1 <= amount <= 31 { amount } else { 32 };
            bit_at(value, if index + places <= 31 { (index + places) as u32 } else { 31 })
        },
        ShiftKind::Ror => {
            if amount == 0 {
                if index == 31 { carry_in } else { bit_at(value, (index + 1) as u32) }
            } else {
                bit_at(value, ((index + amount) % 32) as u32)
            }
        },
    }
}

/// Every bit of the shifter's output word is the input bit that the shift moves
/// there: a left shift by n takes bit i from bit i - n and fills with zeros, a
/// logical right shift takes it from bit i + n and fills with zeros, an
/// arithmetic right shift fills with the sign bit instead, a rotation takes it
/// from bit (i + n) mod 32, and the rotation through the carry takes bit 31
/// from the carry.
pub proof fn lemma_shifter_moves_bits(
    kind: ShiftKind,
    amount: u32,
    value: u32,
    carry_in: bool,
    index: u32,
)
    requires
        index < 32,
    ensures
        bit_at(shifter_output(kind, amount, value, carry_in).result, index) == shifted_bit(
            kind,
            amount,
            value,
            carry_in,
            index,
        ),
{
    match kind {
        ShiftKind::Lsl => {
            if 1 <= amount <= 32 {
                assert(((((value as u64) << amount) as u32 >> index) & 1 == 1) == (index >= amount
                    && (value >> ((index - amount) as u32)) & 1 == 1)) by (bit_vector)
                    requires
                        1 <= amount <= 32,
                        index < 32,
                ;
            } else if amount > 32 {
                assert((0u32 >> index) & 1 == 0) by (bit_vector);
            }
        },
        ShiftKind::Lsr => {
            if 1 <= amount <= 32 {
                assert(((((value as u64) >> amount) as u32 >> index) & 1 == 1) == (index + amount
                    <= 31 && (value >> ((index + amount) as u32)) & 1 == 1)) by (bit_vector)
                    requires
                        1 <= amount <= 32,
                        index < 32,
                ;
            } else {
                assert((0u32 >> index) & 1 == 0) by (bit_vector);
            }
        },
        ShiftKind::Asr => {
            if 1 <= amount <= 31 {
                assert((((((value as i32) >> amount) as u32) >> index) & 1 == 1) == ((value >> (if index
                    + amount <= 31 {
                    (index + amount) as u32
                } else {
                    31u32
                })) & 1 == 1)) by (bit_vector)
                    requires
                        1 <= amount <= 31,
                        index < 32,
                ;
            } else {
                assert((((((value as i32) >> 31u32) as u32) >> index) & 1 == 1) == ((value >> 31u32) & 1
                    == 1)) by (bit_vector)
                    requires
                        index < 32,
                ;
            }
        },
        ShiftKind::Ror => {
            let places = ror_amount(amount);
            if places == 0 {
                assert(((((value >> 1u32) | (if carry_in { 0x8000_0000u32 } else { 0u32 })) >> index) & 1
                    == 1) == (if index == 31 { carry_in } else { (value >> ((index + 1) as u32)) & 1 == 1 }))
                    by (bit_vector)
                    requires
                        index < 32,
                ;
            } else if places <= 31 {
                assert(places % 32 == places);
                assert(((((value >> places) | (value << ((32 - places) as u32))) >> index) & 1 == 1) == ((
                value >> (((index + places) % 32) as u32)) & 1 == 1)) by (bit_vector)
                    requires
                        1 <= places <= 31,
                        index < 32,
                ;
                assert((index + places) % 32 == (index + amount) % 32);
            } else {
                assert((index + amount) % 32 == index as int);
            }
        },
    }
}

/// The bits say all there is to say: a word whose every bit is the one that
/// the shift moves there is the shifter's output word.
pub proof fn lemma_shifter_output_by_bits(
    kind: ShiftKind,
    amount: u32,
    value: u32,
    carry_in: bool,
    word: u32,
)
    requires
        forall|index: u32|
            index < 32 ==> bit_at(word, index) == shifted_bit(kind, amount, value, carry_in, index),
    ensures
        word == shifter_output(kind, amount, value, carry_in).result,
{
    let output = shifter_output(kind, amount, value, carry_in).result;
    assert forall|index: u32| index < 32 implies bit_at(word, index) == bit_at(output, index) by {
        lemma_shifter_moves_bits(kind, amount, value, carry_in, index);
    }
    lemma_equal_bits_equal_words(word, output);
}

/// Read as numbers, the logical shifts by 1 to 32 places multiply and divide.
/// A left shift leaves the low 32 bits of the word times 2 to the amount: the
/// product itself is taken, not one whose amount has wrapped round at 32. A
/// right shift leaves the word divided by 2 to the amount.
pub proof fn lemma_logical_shifts_multiply_and_divide(amount: u32, value: u32, carry_in: bool)
    requires
        1 <= amount <= 32,
    ensures
        lsl(amount, value, carry_in).result == (value * pow2(amount as nat)) % 0x1_0000_0000,
        lsr(amount, value).result == value as nat / pow2(amount as nat),
{
    let wide = value as u64;
    lemma2_to64();
    lemma_pow2_pos(amount as nat);
    if amount < 32 {
        lemma_pow2_strictly_increases(amount as nat, 32);
    }
    lemma_mul_upper_bound(value as int, 0xFFFF_FFFF, pow2(amount as nat) as int, 0x1_0000_0000);
    lemma_u64_shl_is_mul(wide, amount as u64);
    lemma_u64_shr_is_div(wide, amount as u64);
    let product = wide << amount;
    assert(product as u32 == product % 0x1_0000_0000) by (bit_vector);
    let quotient = wide >> amount;
    assert(quotient <= 0xFFFF_FFFF) by (bit_vector)
        requires
            quotient == wide >> amount,
            wide <= 0xFFFF_FFFF,
    ;
}

/// Read as a number in two's complement, an arithmetic shift right by 1 to 31
/// places leaves the word divided by 2 to the amount, rounded down.
pub proof fn lemma_arithmetic_shift_divides(amount: u32, value: u32)
    requires
        1 <= amount <= 31,
    ensures
        signed(asr(amount, value).result) == signed(value) / (pow2(amount as nat) as int),
{
    let result = ((value as i32) >> amount) as u32;
    let offset = value ^ 0x8000_0000u32;
    let top = 0x8000_0000u32;
    assert(signed(result) == (offset >> amount) - (top >> amount)) by (bit_vector)
        requires
            1 <= amount <= 31,
            result == ((value as i32) >> amount) as u32,
            offset == value ^ 0x8000_0000u32,
            top == 0x8000_0000u32,
    ;
    assert(offset == signed(value) + 0x8000_0000) by (bit_vector)
        requires
            offset == value ^ 0x8000_0000u32,
    ;
    let divisor = pow2(amount as nat);
    let rest = pow2((31 - amount) as nat);
    lemma2_to64();
    lemma_pow2_pos(amount as nat);
    lemma_pow2_adds(amount as nat, (31 - amount) as nat);
    lemma_u32_shr_is_div(offset, amount);
    lemma_u32_shr_is_div(top, amount);
    assert(top == divisor * rest);
    lemma_div_multiples_vanish_fancy(rest as int, 0, divisor as int);
    assert(top as int / divisor as int == rest);
    lemma_hoist_over_denominator(signed(value), rest as int, divisor);
    assert(rest * divisor == top as int) by (nonlinear_arith)
        requires
            top == divisor * rest,
    ;
    assert((signed(value) + rest * divisor) / divisor as int == signed(value) / divisor as int + rest);
}

/// Read as numbers, a rotation by 1 to 31 places lets the two parts of the
/// word change places: the word divided by 2 to the amount comes down, and
/// the remainder goes up above it.
pub proof fn lemma_rotation_swaps_parts(amount: u32, value: u32)
    requires
        1 <= amount <= 31,
    ensures
        rotated_right(value, amount) == value as nat / pow2(amount as nat) + (value as nat % pow2(
            amount as nat,
        )) * pow2((32 - amount) as nat),
{
    lemma2_to64();
    lemma_pow2_pos(amount as nat);
    lemma_u32_pow2_no_overflow(amount as nat);
    lemma_u32_shl_is_mul(1, amount);
    let back = (32 - amount) as u32;
    let upper = value >> amount;
    let mask = ((1u32 << amount) - 1) as u32;
    let lower = value & mask;
    assert((value >> amount) | (value << back) == upper + (lower << back)) by (bit_vector)
        requires
            1 <= amount <= 31,
            back == 32 - amount,
            upper == value >> amount,
            mask == ((1u32 << amount) - 1) as u32,
            lower == value & mask,
    ;
    lemma_pow2_pos(back as nat);
    lemma_pow2_adds(amount as nat, back as nat);
    lemma_u32_shr_is_div(value, amount);
    lemma_u32_low_bits_mask_is_mod(value, amount as nat);
    assert(mask == low_bits_mask(amount as nat));
    assert(lower == value as nat % pow2(amount as nat));
    lemma_mul_strict_inequality(lower as int, pow2(amount as nat) as int, pow2(back as nat) as int);
    lemma_u32_shl_is_mul(lower, back);
}

/// The amounts that stand for something else. A left shift by 0 changes
/// neither word nor carry. A logical or arithmetic right shift by 0 is the
/// shift by 32. A rotation by 0 is the rotation by one place through the
/// carry. A rotation by 64 is the rotation by 32, which keeps the word and
/// copies bit 31 into the carry.
pub proof fn lemma_special_amounts(value: u32, carry_in: bool)
    ensures
        shifter_output(ShiftKind::Lsl, 0, value, carry_in) == shifted(value, carry_in),
        shifter_output(ShiftKind::Lsr, 0, value, carry_in) == shifted(0, bit_at(value, 31)),
        shifter_output(ShiftKind::Lsr, 0, value, carry_in) == shifter_output(
            ShiftKind::Lsr,
            32,
            value,
            carry_in,
        ),
        shifter_output(ShiftKind::Asr, 0, value, carry_in) == shifter_output(
            ShiftKind::Asr,
            32,
            value,
            carry_in,
        ),
        shifter_output(ShiftKind::Ror, 0, value, carry_in) == shifted(
            (value >> 1u32) | (if carry_in { 0x8000_0000u32 } else { 0u32 }),
            bit_at(value, 0),
        ),
        shifter_output(ShiftKind::Ror, 64, value, carry_in) == shifter_output(
            ShiftKind::Ror,
            32,
            value,
            carry_in,
        ),
        shifter_output(ShiftKind::Ror, 32, value, carry_in) == shifted(value, bit_at(value, 31)),
{
    assert(((value as u64) >> 32u32) as u32 == 0) by (bit_vector);
}

/// A rotation by more than 32 is the rotation by 32 less.
pub proof fn lemma_rotation_repeats(amount: u32, value: u32, carry_in: bool)
    requires
        amount > 32,
    ensures
        shifter_output(ShiftKind::Ror, amount, value, carry_in) == shifter_output(
            ShiftKind::Ror,
            (amount - 32) as u32,
            value,
            carry_in,
        ),
{
    let less = (amount - 32) as u32;
    assert(amount % 32 == less % 32);
}

/// Beyond 32 places a logical shift leaves nothing, and an arithmetic shift
/// by 32 or more leaves only the sign.
pub proof fn lemma_long_shifts(amount: u32, value: u32, carry_in: bool)
    requires
        amount > 32,
    ensures
        shifter_output(ShiftKind::Lsl, amount, value, carry_in) == shifted(0, false),
        shifter_output(ShiftKind::Lsr, amount, value, carry_in) == shifted(0, false),
        shifter_output(ShiftKind::Asr, amount, value, carry_in) == shifted(
            if bit_at(value, 31) { 0xFFFF_FFFFu32 } else { 0u32 },
            bit_at(value, 31),
        ),
{
    assert(((value as i32) >> 31u32) as u32 == (if (value >> 31u32) & 1 == 1 { 0xFFFF_FFFFu32 } else { 0u32 }))
        by (bit_vector);
}

} // verus!
