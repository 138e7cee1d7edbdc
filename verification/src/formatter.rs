//! Fixed-width decimal text for the duty readout.
//!
//! A value is written as ASCII digits, most significant first, at the start of
//! a byte buffer, and every position behind the digits is set to a blank
//! filler, whatever the buffer held before. A formatted buffer therefore
//! holds nothing but ASCII digits and blanks, no digit of an earlier value
//! stays in it, and reading it back as a number gives the value that was
//! written.

use vstd::prelude::*;

verus! {

/// The byte that fills the positions behind the digits: an ASCII blank.
pub const FILLER: u8 = 0x20;

/// The ASCII code of the digit zero.
pub const ASCII_ZERO: u8 = 0x30;

/// The number of bytes in the duty readout.
pub const READOUT_WIDTH: usize = 3;

/// The ASCII byte of the decimal digit `d`.
pub open spec fn digit_byte(d: nat) -> u8
    recommends
        d < 10,
{
    (0x30 + d) as u8
}

/// Whether `b` is an ASCII decimal digit.
pub open spec fn is_digit(b: u8) -> bool {
    0x30 <= b <= 0x39
}

/// The number of decimal digits of `n`; zero has one digit.
pub open spec fn digit_count(n: nat) -> nat
    decreases n,
{
    if n < 10 {
        1
    } else {
        1 + digit_count(n / 10)
    }
}

/// The decimal digits of `n` as ASCII bytes, most significant first.
pub open spec fn decimal_digits(n: nat) -> Seq<u8>
    decreases n,
{
    if n < 10 {
        seq![digit_byte(n)]
    } else {
        decimal_digits(n / 10).push(digit_byte(n % 10))
    }
}

/// The number that the ASCII digits `digits` spell, most significant first.
pub open spec fn decimal_value(digits: Seq<u8>) -> nat
    decreases digits.len(),
{
    if digits.len() == 0 {
        0
    } else {
        decimal_value(digits.drop_last()) * 10 + (digits.last() - 0x30) as nat
    }
}

/// `text` followed by as many fillers as it takes to reach `width`; `text`
/// itself where it is already that long.
pub open spec fn padded(text: Seq<u8>, width: nat) -> Seq<u8> {
    if text.len() >= width {
        text
    } else {
        text + Seq::new((width - text.len()) as nat, |i: int| FILLER)
    }
}

/// The readout of `n` in a field of `width` bytes: its digits, left-justified,
/// then fillers.
pub open spec fn formatted(n: nat, width: nat) -> Seq<u8> {
    padded(decimal_digits(n), width)
}

/// `field` without the fillers at its end.
pub open spec fn trim_filler(field: Seq<u8>) -> Seq<u8>
    decreases field.len(),
{
    if field.len() > 0 && field.last() == FILLER {
        trim_filler(field.drop_last())
    } else {
        field
    }
}

/// Reads `text` as a decimal number: `None` if it is empty or holds a byte
/// that is no digit.
pub open spec fn parse_decimal(text: Seq<u8>) -> Option<nat> {
    if text.len() > 0 && (forall|i: int| 0 <= i < text.len() ==> is_digit(#[trigger] text[i])) {
        Some(decimal_value(text))
    } else {
        None
    }
}

/// Whether every byte of `field` is an ASCII digit or the filler.
pub open spec fn is_readout_text(field: Seq<u8>) -> bool {
    forall|i: int| 0 <= i < field.len() ==> is_digit(#[trigger] field[i]) || field[i] == FILLER
}

/// The digits of `n`, least significant first; empty for zero. This is the
/// order in which repeated division by ten yields them.
spec fn emitted_digits(n: nat) -> Seq<u8>
    decreases n,
{
    if n == 0 {
        Seq::empty()
    } else {
        seq![digit_byte(n % 10)] + emitted_digits(n / 10)
    }
}

/// `decimal_digits(n)` has `digit_count(n)` bytes, and each is an ASCII digit.
pub proof fn decimal_digits_are_ascii(n: nat)
    ensures
        decimal_digits(n).len() == digit_count(n),
        digit_count(n) >= 1,
        forall|i: int| 0 <= i < decimal_digits(n).len() ==> is_digit(#[trigger] decimal_digits(n)[i]),
    decreases n,
{
    if n >= 10 {
        decimal_digits_are_ascii(n / 10);
    }
}

/// A number has at most three digits exactly when it is below 1000.
pub proof fn three_digits_hold_below_1000(n: nat)
    ensures
        digit_count(n) <= 3 <==> n < 1000,
{
    reveal_with_fuel(digit_count, 4);
}

/// Reading the digits of `n` back gives `n`.
pub proof fn decimal_value_of_digits(n: nat)
    ensures
        decimal_value(decimal_digits(n)) == n,
    decreases n,
{
    if n < 10 {
        let s = decimal_digits(n);
        assert(s.drop_last() =~= Seq::<u8>::empty());
        assert(decimal_value(s.drop_last()) == 0);
    } else {
        decimal_value_of_digits(n / 10);
        let s = decimal_digits(n);
        assert(s.drop_last() =~= decimal_digits(n / 10));
    }
}

/// Fillers behind a text that does not end in one are exactly what
/// `trim_filler` removes.
pub proof fn trim_filler_of_padded(text: Seq<u8>, width: nat)
    requires
        text.len() == 0 || text.last() != FILLER,
    ensures
        trim_filler(padded(text, width)) == text,
    decreases width,
{
    let field = padded(text, width);
    if width > text.len() {
        assert(field.drop_last() =~= padded(text, (width - 1) as nat));
        trim_filler_of_padded(text, (width - 1) as nat);
    }
}

/// Round trip: the readout of `n`, read back as a decimal number with the
/// fillers at its end ignored, is `n`. This holds in a field of any width;
/// when `n` has at most `width` digits the field is exactly `width` bytes
/// long and holds nothing but digits and fillers.
pub proof fn formatted_round_trips(n: nat, width: nat)
    ensures
        parse_decimal(trim_filler(formatted(n, width))) == Some(n),
        digit_count(n) <= width ==> formatted(n, width).len() == width,
        is_readout_text(formatted(n, width)),
{
    decimal_digits_are_ascii(n);
    decimal_value_of_digits(n);
    let digits = decimal_digits(n);
    trim_filler_of_padded(digits, width);
    let field = formatted(n, width);
    assert forall|i: int| 0 <= i < field.len() implies is_digit(#[trigger] field[i]) || field[i]
        == FILLER by {
        if i < digits.len() {
            assert(field[i] == digits[i]);
        }
    }
}

/// Turning the emitted digits round gives the digits in reading order.
proof fn emitted_digits_reversed(n: nat)
    requires
        n > 0,
    ensures
        emitted_digits(n).reverse() == decimal_digits(n),
        emitted_digits(n).len() == digit_count(n),
    decreases n,
{
    let e = emitted_digits(n);
    if n < 10 {
        assert(emitted_digits(n / 10) =~= Seq::<u8>::empty());
        assert(e.reverse() =~= decimal_digits(n));
    } else {
        emitted_digits_reversed(n / 10);
        let rest = emitted_digits(n / 10);
        assert(e.reverse() =~= rest.reverse().push(digit_byte(n % 10))) by {
            assert forall|i: int| 0 <= i < e.len() implies e.reverse()[i] == rest.reverse().push(
                digit_byte(n % 10),
            )[i] by {
                if i < rest.len() {
                    assert(e[e.len() - 1 - i] == rest[rest.len() - 1 - i]);
                }
            }
        }
    }
}

/// Reverses the first `len` bytes of `buf` in place and leaves the rest alone.
fn reverse_prefix(buf: &mut [u8], len: usize)
    requires
        len <= old(buf)@.len(),
    ensures
        final(buf)@ == old(buf)@.take(len as int).reverse() + old(buf)@.skip(len as int),
{
    let ghost before = buf@;
    let mut lo: usize = 0;
    let mut hi: usize = len;
    while lo + 1 < hi
        invariant
            lo <= hi <= len,
            lo + hi == len,
            len <= before.len(),
            buf@.len() == before.len(),
            forall|j: int| 0 <= j < lo ==> buf@[j] == before[len - 1 - j],
            forall|j: int| hi <= j < len ==> buf@[j] == before[len - 1 - j],
            forall|j: int| lo <= j < hi ==> buf@[j] == before[j],
            forall|j: int| len <= j < before.len() ==> buf@[j] == before[j],
        decreases hi - lo,
    {
        hi = hi - 1;
        let front: u8 = buf[lo];
        let back: u8 = buf[hi];
        buf[lo] = back;
        buf[hi] = front;
        lo = lo + 1;
    }
    assert(buf@ =~= before.take(len as int).reverse() + before.skip(len as int));
}

/// Fills `buf` with the filler.
fn fill_with_filler(buf: &mut [u8])
    ensures
        final(buf)@.len() == old(buf)@.len(),
        forall|j: int| 0 <= j < final(buf)@.len() ==> final(buf)@[j] == FILLER,
{
    let ghost before = buf@;
    let mut i: usize = 0;
    while i < buf.len()
        invariant
            buf@.len() == before.len(),
            i <= buf@.len(),
            forall|j: int| 0 <= j < i ==> buf@[j] == FILLER,
        decreases buf@.len() - i,
    {
        buf[i] = FILLER;
        i = i + 1;
    }
}

/// Formats `n` into `buf`: its decimal digits from the start of `buf`, most
/// significant first, and fillers in every position behind them. Nothing
/// of what `buf` held before is left. Returns the part of `buf` that holds
/// the digits. Zero is written as the single digit `0`.
///
/// The buffer is filled with fillers first. The digits then come out of
/// repeated division by ten, least significant first, and are turned round
/// in place.
pub fn base_10_bytes(n: u64, buf: &mut [u8]) -> (digits: &[u8])
    requires
        digit_count(n as nat) <= old(buf)@.len(),
    ensures
        digits@ == decimal_digits(n as nat),
        digits@.len() == digit_count(n as nat),
        final(buf)@.len() == old(buf)@.len(),
        final(buf)@ == formatted(n as nat, old(buf)@.len()),
        is_readout_text(final(buf)@),
        parse_decimal(trim_filler(final(buf)@)) == Some(n as nat),
{
    let ghost width = buf@.len();
    proof {
        decimal_digits_are_ascii(n as nat);
        formatted_round_trips(n as nat, width);
    }
    fill_with_filler(buf);
    if n == 0 {
        buf[0] = ASCII_ZERO;
        assert(buf@ =~= formatted(0, width));
        let digits = &buf[0..1];
        assert(digits@ =~= decimal_digits(0));
        return digits;
    }
    proof {
        emitted_digits_reversed(n as nat);
    }
    let mut rest: u64 = n;
    let mut i: usize = 0;
    while rest > 0
        invariant
            buf@.len() == width,
            i + emitted_digits(rest as nat).len() == emitted_digits(n as nat).len(),
            emitted_digits(n as nat).len() <= width,
            buf@.take(i as int) + emitted_digits(rest as nat) == emitted_digits(n as nat),
            forall|j: int| i <= j < width ==> buf@[j] == FILLER,
        decreases rest,
    {
        let ghost written = buf@.take(i as int);
        let ghost tail = emitted_digits((rest / 10) as nat);
        let digit: u8 = (rest % 10) as u8;
        buf[i] = digit + ASCII_ZERO;
        proof {
            assert(emitted_digits(rest as nat) =~= seq![digit_byte((rest % 10) as nat)] + tail);
            assert(buf@.take(i + 1) + tail =~= written + emitted_digits(rest as nat));
        }
        rest = rest / 10;
        i = i + 1;
    }
    let ghost emitted = buf@;
    proof {
        assert(emitted.take(i as int) =~= emitted_digits(n as nat));
    }
    reverse_prefix(buf, i);
    assert(buf@ =~= formatted(n as nat, width));
    let digits = &buf[0..i];
    assert(digits@ =~= decimal_digits(n as nat));
    digits
}

/// Formats `value` into a fresh buffer of `WIDTH` bytes: its decimal digits,
/// left-justified, then fillers.
///
/// The caller chooses a width that holds the value; three bytes hold every
/// duty from 0 to 100.
pub fn format_decimal<const WIDTH: usize>(value: u64) -> (field: [u8; WIDTH])
    requires
        digit_count(value as nat) <= WIDTH,
    ensures
        field@ == formatted(value as nat, WIDTH as nat),
        is_readout_text(field@),
        parse_decimal(trim_filler(field@)) == Some(value as nat),
{
    let mut field: [u8; WIDTH] = [FILLER;WIDTH];
    base_10_bytes(value, &mut field);
    field
}

} // verus!
