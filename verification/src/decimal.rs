//! Fixed-point text for a 64-bit binary floating value given by its bits.
//!
//! The value is written with four digits after the decimal point, rounded to
//! the nearest ten-thousandth, ties going to the even neighbour. The work is
//! done on integers throughout: the bits are taken apart into sign, exponent
//! and significand, and the digits are computed exactly.

use vstd::prelude::*;
use vstd::string::*;
use vstd::arithmetic::power2::{
    lemma2_to64, lemma_pow2_adds, lemma_pow2_pos, lemma_pow2_strictly_increases, lemma_pow2_unfold,
    pow2,
};

verus! {

/// The lowest value whose sign bit is set.
pub const SIGN_BIT: u64 = 0x8000_0000_0000_0000;

/// The weight of the lowest exponent bit, which is also the implicit leading
/// bit of a normal significand.
pub const HIDDEN_BIT: u64 = 0x10_0000_0000_0000;

/// The number of values the exponent field can take.
pub const EXPONENT_SPAN: u64 = 0x800;

/// The exponent field that marks infinities and NaNs.
pub const SPECIAL_EXPONENT: u64 = 0x7ff;

/// The exponent field of values whose significand counts units.
pub const UNIT_EXPONENT: u64 = 1075;

/// How many of the smallest written steps make up one.
pub const STEPS_PER_UNIT: u64 = 10_000;

/// Whether the sign bit is set.
pub open spec fn is_negative(bits: u64) -> bool {
    bits >= SIGN_BIT
}

/// The eleven exponent bits.
pub open spec fn exponent_field(bits: u64) -> nat {
    (bits / HIDDEN_BIT % EXPONENT_SPAN) as nat
}

/// The fifty-two fraction bits.
pub open spec fn fraction_field(bits: u64) -> nat {
    (bits % HIDDEN_BIT) as nat
}

/// Whether the bits encode a NaN.
pub open spec fn is_nan(bits: u64) -> bool {
    exponent_field(bits) == SPECIAL_EXPONENT && fraction_field(bits) != 0
}

/// Whether the bits encode an infinity.
pub open spec fn is_infinite(bits: u64) -> bool {
    exponent_field(bits) == SPECIAL_EXPONENT && fraction_field(bits) == 0
}

/// The integer significand of a finite value: the fraction bits, with the
/// implicit leading bit unless the value is subnormal.
pub open spec fn significand(bits: u64) -> nat {
    if exponent_field(bits) == 0 {
        fraction_field(bits)
    } else {
        fraction_field(bits) + HIDDEN_BIT as nat
    }
}

/// The power of two by which the significand is scaled: the magnitude of a
/// finite value is `significand * 2^binary_exponent`.
pub open spec fn binary_exponent(bits: u64) -> int {
    if exponent_field(bits) == 0 {
        -1074
    } else {
        exponent_field(bits) - UNIT_EXPONENT
    }
}

/// The quotient `n / d` rounded to the nearest integer, a tie going to the
/// even one.
pub open spec fn round_half_even(n: nat, d: nat) -> nat {
    let q = n / d;
    let r = n % d;
    if 2 * r > d || (2 * r == d && q % 2 == 1) {
        q + 1
    } else {
        q
    }
}

/// The magnitude of a finite value in ten-thousandths, rounded half to even.
pub open spec fn ten_thousandths(bits: u64) -> nat {
    let m = significand(bits);
    let e = binary_exponent(bits);
    if e >= 0 {
        m * pow2(e as nat) * (STEPS_PER_UNIT as nat)
    } else {
        round_half_even(m * (STEPS_PER_UNIT as nat), pow2((-e) as nat))
    }
}

/// The decimal digits of `n`, most significant first, without leading zeros.
pub open spec fn decimal_digits(n: nat) -> Seq<u8>
    decreases n,
{
    if n < 10 {
        seq![n as u8]
    } else {
        decimal_digits(n / 10).push((n % 10) as u8)
    }
}

/// The four digits of a count of ten-thousandths below one.
pub open spec fn fraction_digits(part: nat) -> Seq<u8> {
    seq![
        (part / 1000 % 10) as u8,
        (part / 100 % 10) as u8,
        (part / 10 % 10) as u8,
        (part % 10) as u8,
    ]
}

/// The character that writes a digit.
pub open spec fn digit_char(digit: u8) -> char {
    if digit == 0 {
        '0'
    } else if digit == 1 {
        '1'
    } else if digit == 2 {
        '2'
    } else if digit == 3 {
        '3'
    } else if digit == 4 {
        '4'
    } else if digit == 5 {
        '5'
    } else if digit == 6 {
        '6'
    } else if digit == 7 {
        '7'
    } else if digit == 8 {
        '8'
    } else {
        '9'
    }
}

/// The characters that write a sequence of digits.
pub open spec fn digits_text(digits: Seq<u8>) -> Seq<char> {
    Seq::new(digits.len(), |i: int| digit_char(digits[i]))
}

/// The sign as written: a minus for a set sign bit, nothing otherwise.
pub open spec fn sign_text(bits: u64) -> Seq<char> {
    if is_negative(bits) {
        seq!['-']
    } else {
        Seq::empty()
    }
}

/// The text of the value with four decimals.
///
/// A NaN is written `NaN`, an infinity `inf`, and a finite value as the
/// digits of its whole part, a point and four digits. All but NaN carry a
/// minus when the sign bit is set, a zero included.
pub open spec fn fixed_text(bits: u64) -> Seq<char> {
    if is_nan(bits) {
        "NaN"@
    } else if is_infinite(bits) {
        sign_text(bits) + "inf"@
    } else {
        let steps = ten_thousandths(bits);
        sign_text(bits) + digits_text(decimal_digits(steps / (STEPS_PER_UNIT as nat))) + seq!['.']
            + digits_text(fraction_digits(steps % (STEPS_PER_UNIT as nat)))
    }
}

/// The number that digits write, most significant first.
pub open spec fn digits_value(digits: Seq<u8>) -> nat
    decreases digits.len(),
{
    if digits.len() == 0 {
        0
    } else {
        10 * digits_value(digits.drop_last()) + digits.last() as nat
    }
}

/// Digits as `decimal_digits` produces them: at least one, each below ten,
/// and no leading zero unless the zero stands alone.
pub open spec fn canonical(digits: Seq<u8>) -> bool {
    &&& digits.len() >= 1
    &&& forall|i: int| 0 <= i < digits.len() ==> digits[i] < 10
    &&& digits.len() > 1 ==> digits[0] != 0
}

/// The decimal digits of a number are canonical and write that number.
pub proof fn decimal_digits_write_the_number(n: nat)
    ensures
        canonical(decimal_digits(n)),
        digits_value(decimal_digits(n)) == n,
        n > 0 ==> decimal_digits(n)[0] != 0,
    decreases n,
{
    if n < 10 {
        let d = decimal_digits(n);
        assert(d.drop_last() =~= Seq::<u8>::empty());
        assert(digits_value(d.drop_last()) == 0);
    } else {
        decimal_digits_write_the_number(n / 10);
        let head = decimal_digits(n / 10);
        let d = head.push((n % 10) as u8);
        assert(d.drop_last() =~= head);
    }
}

/// Digits that begin with a digit other than zero write a number other than
/// zero.
pub proof fn leading_digit_makes_it_positive(digits: Seq<u8>)
    requires
        digits.len() >= 1,
        digits[0] != 0,
    ensures
        digits_value(digits) >= 1,
    decreases digits.len(),
{
    if digits.len() > 1 {
        leading_digit_makes_it_positive(digits.drop_last());
    } else {
        assert(digits.drop_last() =~= Seq::<u8>::empty());
        assert(digits_value(digits.drop_last()) == 0);
    }
}

/// A number has one canonical way of being written: canonical digits are
/// the decimal digits of the number they write.
pub proof fn canonical_digits_are_decimal(digits: Seq<u8>)
    requires
        canonical(digits),
    ensures
        decimal_digits(digits_value(digits)) == digits,
    decreases digits.len(),
{
    if digits.len() == 1 {
        assert(digits.drop_last() =~= Seq::<u8>::empty());
        assert(digits_value(digits.drop_last()) == 0);
        assert(decimal_digits(digits_value(digits)) =~= digits);
    } else {
        let head = digits.drop_last();
        leading_digit_makes_it_positive(head);
        canonical_digits_are_decimal(head);
        assert(head.push(digits.last()) =~= digits);
    }
}

fn digit_str(digit: u8) -> (text: &'static str)
    requires
        digit < 10,
    ensures
        text@ == seq![digit_char(digit)],
{
    proof {
        reveal_strlit("0");
        reveal_strlit("1");
        reveal_strlit("2");
        reveal_strlit("3");
        reveal_strlit("4");
        reveal_strlit("5");
        reveal_strlit("6");
        reveal_strlit("7");
        reveal_strlit("8");
        reveal_strlit("9");
    }
    let text = if digit == 0 {
        "0"
    } else if digit == 1 {
        "1"
    } else if digit == 2 {
        "2"
    } else if digit == 3 {
        "3"
    } else if digit == 4 {
        "4"
    } else if digit == 5 {
        "5"
    } else if digit == 6 {
        "6"
    } else if digit == 7 {
        "7"
    } else if digit == 8 {
        "8"
    } else {
        "9"
    };
    assert(text@ =~= seq![digit_char(digit)]);
    text
}

/// Appends the characters of the digits to the text.
fn append_digits(text: &mut String, digits: &Vec<u8>)
    requires
        forall|i: int| 0 <= i < digits@.len() ==> digits@[i] < 10,
    ensures
        final(text)@ == old(text)@ + digits_text(digits@),
{
    let mut i: usize = 0;
    while i < digits.len()
        invariant
            i <= digits@.len(),
            forall|k: int| 0 <= k < digits@.len() ==> digits@[k] < 10,
            text@ == old(text)@ + digits_text(digits@.take(i as int)),
        decreases digits@.len() - i,
    {
        text.append(digit_str(digits[i]));
        proof {
            assert(digits_text(digits@.take(i + 1)) =~= digits_text(digits@.take(i as int))
                + seq![digit_char(digits@[i as int])]);
        }
        i += 1;
    }
    assert(digits@.take(i as int) =~= digits@);
}

/// Appends the decimal digits of the value to the digits already there.
fn push_decimal(value: u64, digits: &mut Vec<u8>)
    ensures
        final(digits)@ == old(digits)@ + decimal_digits(value as nat),
    decreases value,
{
    if value >= 10 {
        push_decimal(value / 10, digits);
    }
    let lowest: u8 = (value % 10) as u8;
    digits.push(lowest);
    proof {
        if value >= 10 {
            assert(final(digits)@ =~= old(digits)@ + decimal_digits((value / 10) as nat).push(lowest));
        } else {
            assert(final(digits)@ =~= old(digits)@ + seq![lowest]);
        }
    }
}

/// The carry that doubling hands to the digit left of `index`: one if the
/// digit at `index` is five or more.
spec fn carry_into(digits: Seq<u8>, index: int) -> nat {
    if index < digits.len() && digits[index] >= 5 {
        1
    } else {
        0
    }
}

/// The digits of twice the number that `digits` write.
///
/// Doubling a digit carries at most one, and whether it carries depends on
/// that digit alone, so the digits can be written from the left.
fn doubled(digits: &Vec<u8>) -> (twice: Vec<u8>)
    requires
        canonical(digits@),
        digits@[0] != 0,
    ensures
        canonical(twice@),
        twice@[0] != 0,
        digits_value(twice@) == 2 * digits_value(digits@),
{
    let mut twice: Vec<u8> = Vec::new();
    if digits[0] >= 5 {
        twice.push(1);
    }
    proof {
        assert(digits@.take(0) =~= Seq::<u8>::empty());
        if digits@[0] >= 5 {
            assert(twice@.drop_last() =~= Seq::<u8>::empty());
        }
    }
    let mut i: usize = 0;
    while i < digits.len()
        invariant
            i <= digits@.len(),
            canonical(digits@),
            digits@[0] != 0,
            forall|k: int| 0 <= k < twice@.len() ==> twice@[k] < 10,
            digits_value(twice@) == 2 * digits_value(digits@.take(i as int)) + carry_into(
                digits@,
                i as int,
            ),
            i > 0 ==> twice@.len() >= 1,
            twice@.len() >= 1 ==> twice@[0] != 0,
        decreases digits@.len() - i,
    {
        let digit: u8 = digits[i];
        let carry: u8 = if i + 1 < digits.len() && digits[i + 1] >= 5 {
            1
        } else {
            0
        };
        let low: u8 = if digit >= 5 {
            2 * digit - 10
        } else {
            2 * digit
        };
        let ghost before = twice@;
        twice.push(low + carry);
        proof {
            assert(twice@.drop_last() =~= before);
            assert(digits@.take(i + 1).drop_last() =~= digits@.take(i as int));
            assert(digits@.take(i + 1).last() == digit);
        }
        i += 1;
    }
    proof {
        assert(digits@.take(i as int) =~= digits@);
    }
    twice
}

/// The decimal digits of `significand * 2^shift`.
fn shifted_digits(significand: u64, shift: u64) -> (digits: Vec<u8>)
    requires
        significand > 0,
    ensures
        digits@ == decimal_digits(significand as nat * pow2(shift as nat)),
{
    let mut digits: Vec<u8> = Vec::new();
    push_decimal(significand, &mut digits);
    proof {
        decimal_digits_write_the_number(significand as nat);
        lemma2_to64();
        assert(digits@ =~= decimal_digits(significand as nat));
    }
    let mut done: u64 = 0;
    while done < shift
        invariant
            done <= shift,
            canonical(digits@),
            digits@[0] != 0,
            digits_value(digits@) == significand as nat * pow2(done as nat),
        decreases shift - done,
    {
        digits = doubled(&digits);
        proof {
            lemma_pow2_unfold((done + 1) as nat);
            assert(significand as nat * (2 * pow2(done as nat)) == 2 * (significand as nat * pow2(
                done as nat,
            ))) by (nonlinear_arith);
        }
        done += 1;
    }
    proof {
        canonical_digits_are_decimal(digits@);
    }
    digits
}

/// `n / 2^shift`, rounded to the nearest integer, a tie going to the even
/// one.
fn rounded_shift(n: u128, shift: u64) -> (rounded: u128)
    requires
        n < 0x8_0000_0000_0000_0000,
    ensures
        rounded == round_half_even(n as nat, pow2(shift as nat)),
        rounded <= 0x8_0000_0000_0000_0000,
{
    proof {
        lemma2_to64();
        lemma_pow2_adds(64, 3);
        lemma_pow2_adds(64, 4);
    }
    if shift >= 68 {
        proof {
            if shift > 68 {
                lemma_pow2_strictly_increases(68, shift as nat);
            }
            let d = pow2(shift as nat);
            assert(2 * n < d);
            vstd::arithmetic::div_mod::lemma_basic_div(n as int, d as int);
            vstd::arithmetic::div_mod::lemma_small_mod(n as nat, d);
        }
        return 0;
    }
    let mut divisor: u128 = 1;
    let mut i: u64 = 0;
    while i < shift
        invariant
            i <= shift < 68,
            divisor == pow2(i as nat),
            pow2(67) == 0x8_0000_0000_0000_0000,
        decreases shift - i,
    {
        proof {
            lemma_pow2_strictly_increases(i as nat, 67);
            lemma_pow2_unfold((i + 1) as nat);
        }
        divisor = divisor * 2;
        i += 1;
    }
    proof {
        lemma_pow2_pos(shift as nat);
        if shift < 67 {
            lemma_pow2_strictly_increases(shift as nat, 67);
        }
    }
    let quotient: u128 = n / divisor;
    let rest: u128 = n % divisor;
    if 2 * rest > divisor || (2 * rest == divisor && quotient % 2 == 1) {
        quotient + 1
    } else {
        quotient
    }
}

/// The text of the value with four decimals: the whole part, a point and
/// four digits, rounded half to even; `NaN` and `inf` for the values that
/// are no numbers. A set sign bit gives a leading minus, except on a NaN.
pub fn format_fixed(bits: u64) -> (text: String)
    ensures
        text@ == fixed_text(bits),
{
    let exponent: u64 = bits / HIDDEN_BIT % EXPONENT_SPAN;
    let fraction: u64 = bits % HIDDEN_BIT;
    if exponent == SPECIAL_EXPONENT && fraction != 0 {
        return String::from_str("NaN");
    }
    let mut text = String::new();
    if bits >= SIGN_BIT {
        proof {
            reveal_strlit("-");
        }
        text.append("-");
    }
    assert(text@ =~= sign_text(bits));
    if exponent == SPECIAL_EXPONENT {
        text.append("inf");
        return text;
    }
    let mut whole: Vec<u8> = Vec::new();
    let part: u64;
    if exponent >= UNIT_EXPONENT {
        let shift: u64 = exponent - UNIT_EXPONENT;
        whole = shifted_digits(fraction + HIDDEN_BIT, shift);
        part = 0;
        proof {
            let units = significand(bits) * pow2(shift as nat);
            assert(ten_thousandths(bits) == units * STEPS_PER_UNIT);
            assert((units * 10000) / 10000 == units && (units * 10000) % 10000 == 0)
                by (nonlinear_arith);
            decimal_digits_write_the_number(units);
        }
    } else {
        let shift: u64 = if exponent == 0 {
            1074
        } else {
            UNIT_EXPONENT - exponent
        };
        let mantissa: u64 = if exponent == 0 {
            fraction
        } else {
            fraction + HIDDEN_BIT
        };
        let unit: u128 = STEPS_PER_UNIT as u128;
        let steps: u128 = rounded_shift(mantissa as u128 * unit, shift);
        assert(steps == ten_thousandths(bits));
        push_decimal((steps / unit) as u64, &mut whole);
        part = (steps % unit) as u64;
        proof {
            decimal_digits_write_the_number((steps / unit) as nat);
            assert(whole@ =~= decimal_digits((steps / unit) as nat));
        }
    }
    append_digits(&mut text, &whole);
    proof {
        reveal_strlit(".");
    }
    text.append(".");
    let part_digits: Vec<u8> = vec![
        (part / 1000 % 10) as u8,
        (part / 100 % 10) as u8,
        (part / 10 % 10) as u8,
        (part % 10) as u8,
    ];
    assert(part_digits@ =~= fraction_digits(part as nat));
    append_digits(&mut text, &part_digits);
    assert(text@ =~= fixed_text(bits));
    text
}

/// Rounding half to even picks a nearest integer: the result lies within
/// half a step of the exact quotient, and where the quotient lies exactly
/// between two integers the even one is taken.
pub proof fn rounding_picks_the_nearest(n: nat, d: nat)
    requires
        d > 0,
    ensures
        ({
            let rounded = round_half_even(n, d);
            &&& 2 * (rounded * d - n) <= d
            &&& 2 * (n - rounded * d) <= d
            &&& (2 * (rounded * d - n) == d || 2 * (n - rounded * d) == d) ==> rounded % 2 == 0
        }),
{
    let q = n / d;
    let r = n % d;
    vstd::arithmetic::div_mod::lemma_fundamental_div_mod(n as int, d as int);
    vstd::arithmetic::div_mod::lemma_mod_bound(n as int, d as int);
    assert((q + 1) * d == q * d + d) by (nonlinear_arith);
    assert(d * q == q * d) by (nonlinear_arith);
}

/// The four fraction digits are digits, and they write the part they stand
/// for.
pub proof fn fraction_digits_write_the_part(part: nat)
    requires
        part < STEPS_PER_UNIT,
    ensures
        fraction_digits(part).len() == 4,
        forall|i: int| 0 <= i < 4 ==> fraction_digits(part)[i] < 10,
        digits_value(fraction_digits(part)) == part,
{
    let digits = fraction_digits(part);
    assert(digits.drop_last() =~= seq![digits[0], digits[1], digits[2]]);
    assert(digits.drop_last().drop_last() =~= seq![digits[0], digits[1]]);
    assert(digits.drop_last().drop_last().drop_last() =~= seq![digits[0]]);
    assert(digits.drop_last().drop_last().drop_last().drop_last() =~= Seq::<u8>::empty());
    reveal_with_fuel(digits_value, 5);
}

/// A finite value is written with exactly four digits after the point and
/// at least one before it.
pub proof fn finite_text_has_four_decimals(bits: u64)
    requires
        !is_nan(bits),
        !is_infinite(bits),
    ensures
        ({
            let text = fixed_text(bits);
            let lead = sign_text(bits).len();
            &&& text.len() >= lead + 6
            &&& text[text.len() - 5] == '.'
            &&& forall|i: int|
                lead <= i < text.len() && i != text.len() - 5 ==> '0' <= #[trigger] text[i] <= '9'
        }),
{
    let steps = ten_thousandths(bits);
    let whole = decimal_digits(steps / (STEPS_PER_UNIT as nat));
    let part = fraction_digits(steps % (STEPS_PER_UNIT as nat));
    decimal_digits_write_the_number(steps / (STEPS_PER_UNIT as nat));
    let text = fixed_text(bits);
    let lead = sign_text(bits).len();
    assert(text.len() == lead + whole.len() + 5);
    assert forall|i: int| lead <= i < text.len() && i != text.len() - 5 implies '0'
        <= #[trigger] text[i] <= '9' by {
        if i < lead + whole.len() {
            assert(text[i] == digit_char(whole[i - lead]));
        } else {
            assert(text[i] == digit_char(part[i - lead - whole.len() - 1]));
        }
    }
}

/// The sign bit changes nothing but the sign: setting it on a value that is
/// no NaN puts a minus before the text and leaves the rest as it is.
pub proof fn sign_bit_only_adds_a_minus(bits: u64)
    requires
        bits < SIGN_BIT,
        !is_nan(bits),
    ensures
        fixed_text((bits + SIGN_BIT) as u64) == seq!['-'] + fixed_text(bits),
{
    let negated = (bits + SIGN_BIT) as u64;
    assert(negated / HIDDEN_BIT == bits / HIDDEN_BIT + EXPONENT_SPAN);
    assert(exponent_field(negated) == exponent_field(bits));
    assert(fraction_field(negated) == fraction_field(bits));
    assert(sign_text(bits) =~= Seq::<char>::empty());
    assert(fixed_text(negated) =~= seq!['-'] + fixed_text(bits));
}

} // verus!
