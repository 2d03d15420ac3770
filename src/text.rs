//! Fixed-capacity text fields and digit-by-digit numeric formatting.

use vstd::prelude::*;

use crate::status::TimeReading;

verus! {

/// Capacity, in bytes, of every text field shown on the screen.
pub const TEXT_CAPACITY: usize = 12;

/// Fixed-capacity text buffer used for every rendered field.
pub type Text = heapless::String<12>;

/// Declares heapless::String, the fixed-capacity string of the heapless crate,
/// so that text buffers can be held and passed around; its contents are seen
/// only through `text_of`.
#[verifier::external_type_specification]
#[verifier::external_body]
pub struct ExHeaplessString<const N: usize>(heapless::String<N>);

/// The characters a text buffer holds, in order.
pub uninterp spec fn text_of(s: heapless::String<12>) -> Seq<char>;

/// Relies on heapless::String::new: the new buffer holds no characters.
#[verifier::external_body]
fn new_text() -> (r: Text)
    ensures
        text_of(r) == Seq::<char>::empty(),
{
    heapless::String::new()
}

/// Relies on heapless::String::push for a one-byte (ASCII) character: it is
/// appended when fewer bytes than the capacity are in use, and otherwise the
/// buffer is left as it was and an error is returned.
#[verifier::external_body]
fn push_char(s: &mut Text, c: char) -> (r: Result<(), ()>)
    requires
        (c as u32) < 128,
        all_ascii(text_of(*old(s))),
    ensures
        text_of(*old(s)).len() < 12 ==> r is Ok && text_of(*final(s)) == text_of(*old(s)).push(c),
        text_of(*old(s)).len() >= 12 ==> r is Err && text_of(*final(s)) == text_of(*old(s)),
{
    s.push(c)
}

/// Ten to the power `k`.
pub open spec fn pow10(k: nat) -> nat
    decreases k,
{
    if k == 0 {
        1
    } else {
        10 * pow10((k - 1) as nat)
    }
}

/// Number of decimal digits of `v` (zero has one digit).
pub open spec fn num_digits(v: nat) -> nat
    decreases v,
{
    if v < 10 {
        1
    } else {
        1 + num_digits(v / 10)
    }
}

/// The character of a decimal digit `d < 10`.
pub open spec fn digit_char(d: nat) -> char {
    ((48 + d) as u8) as char
}

/// The character shown at decimal rank `rank` of `v`: the digit when the
/// magnitude reaches that rank or the rank is the least significant one,
/// the pad character otherwise.
pub open spec fn rank_char(v: nat, rank: nat, pad: char) -> char {
    if rank == 0 || v >= pow10(rank) {
        digit_char((v / pow10(rank)) % 10)
    } else {
        pad
    }
}

/// Width of the field that shows `v` in at least `width` characters.
pub open spec fn field_len(v: nat, width: nat) -> nat {
    if width > num_digits(v) {
        width
    } else {
        num_digits(v)
    }
}

/// `v` right-aligned in a field of at least `width` characters, filled on
/// the left with `pad`.
pub open spec fn padded_decimal(v: nat, width: nat, pad: char) -> Seq<char> {
    let n = field_len(v, width);
    Seq::new(n, |i: int| rank_char(v, (n - 1 - i) as nat, pad))
}

/// Every character of `s` is a one-byte (ASCII) character.
pub open spec fn all_ascii(s: Seq<char>) -> bool {
    forall|i: int| 0 <= i < s.len() ==> (s[i] as u32) < 128
}

proof fn lemma_digits_of_byte(v: nat)
    requires
        v < 256,
    ensures
        v < 10 ==> num_digits(v) == 1,
        10 <= v < 100 ==> num_digits(v) == 2,
        100 <= v ==> num_digits(v) == 3,
        pow10(0) == 1,
        pow10(1) == 10,
        pow10(2) == 100,
{
    reveal_with_fuel(num_digits, 4);
    reveal_with_fuel(pow10, 3);
}

proof fn lemma_pow10_step(k: nat)
    requires
        k > 0,
    ensures
        pow10(k) == 10 * pow10((k - 1) as nat),
        pow10(k) >= 10,
{
    lemma_pow10_positive((k - 1) as nat);
}

proof fn lemma_pow10_mono(a: nat, b: nat)
    requires
        a <= b,
    ensures
        pow10(a) <= pow10(b),
    decreases b - a,
{
    if a < b {
        lemma_pow10_mono(a, (b - 1) as nat);
        lemma_pow10_step(b);
    }
}

proof fn lemma_pow10_ten()
    ensures
        pow10(10) == 10_000_000_000,
{
    reveal_with_fuel(pow10, 11);
}

proof fn lemma_pow10_positive(k: nat)
    ensures
        pow10(k) >= 1,
    decreases k,
{
    if k > 0 {
        lemma_pow10_positive((k - 1) as nat);
    }
}

/// Appends `value` right-aligned in a field of at least `width` characters,
/// padded on the left with `pad`, one decimal rank at a time.
fn push_padded(s: &mut Text, value: u8, width: usize, pad: char)
    requires
        (pad as u32) < 128,
        all_ascii(text_of(*old(s))),
        text_of(*old(s)).len() + field_len(value as nat, width as nat) <= TEXT_CAPACITY,
    ensures
        text_of(*final(s)) == text_of(*old(s)) + padded_decimal(value as nat, width as nat, pad),
        all_ascii(text_of(*final(s))),
{
    proof {
        lemma_digits_of_byte(value as nat);
    }
    let digits: usize = if value >= 100 {
        3
    } else if value >= 10 {
        2
    } else {
        1
    };
    let n: usize = if width > digits {
        width
    } else {
        digits
    };
    assert(n == field_len(value as nat, width as nat));
    let ghost start = text_of(*s);
    let ghost target = padded_decimal(value as nat, width as nat, pad);
    // divisor = 10^(n - 1)
    let mut divisor: u64 = 1;
    let mut k: usize = 1;
    while k < n
        invariant
            1 <= k <= n,
            n <= TEXT_CAPACITY,
            divisor == pow10((k - 1) as nat),
            divisor >= 1,
        decreases n - k,
    {
        proof {
            lemma_pow10_step(k as nat);
            lemma_pow10_mono((k - 1) as nat, 10);
            lemma_pow10_ten();
        }
        divisor = divisor * 10;
        k = k + 1;
    }
    let mut i: usize = 0;
    while i < n
        invariant
            n == field_len(value as nat, width as nat),
            target == padded_decimal(value as nat, width as nat, pad),
            target.len() == n,
            i <= n,
            divisor == pow10((n - 1 - i) as nat) || i == n,
            divisor >= 1,
            start.len() + n <= TEXT_CAPACITY,
            text_of(*s) == start + target.take(i as int),
            all_ascii(text_of(*s)),
            (pad as u32) < 128,
        decreases n - i,
    {
        let rank: usize = n - 1 - i;
        let c: char = if rank == 0 || (value as u64) >= divisor {
            let d: u64 = (value as u64 / divisor) % 10;
            ((48 + d) as u8) as char
        } else {
            pad
        };
        assert(c == target[i as int]);
        let _ = push_char(s, c);
        assert(target.take(i as int + 1) == target.take(i as int).push(c));
        if rank > 0 {
            proof {
                lemma_pow10_step(rank as nat);
                lemma_pow10_positive((rank - 1) as nat);
            }
            divisor = divisor / 10;
        }
        i = i + 1;
    }
    assert(target.take(n as int) == target);
}

/// The percentage field: three characters wide, space-padded.
pub open spec fn percentage_text(v: nat) -> Seq<char> {
    padded_decimal(v, 3, ' ')
}

/// The time field: hours space-padded to two characters, minutes and seconds
/// zero-padded to two, separated by colons.
pub open spec fn time_text(t: TimeReading) -> Seq<char> {
    padded_decimal(t.hours as nat, 2, ' ') + seq![':'] + padded_decimal(t.minutes as nat, 2, '0')
        + seq![':'] + padded_decimal(t.seconds as nat, 2, '0')
}

proof fn lemma_byte_field_len(v: nat, width: nat)
    requires
        v < 256,
        1 <= width <= 3,
    ensures
        field_len(v, width) <= 3,
        width == 3 ==> field_len(v, width) == 3,
{
    lemma_digits_of_byte(v);
}

/// Formats a battery percentage (or the sentinel that stands for a failed
/// read) as a right-aligned field of three characters.
pub fn format_percentage(value: u8) -> (r: Text)
    ensures
        text_of(r) == percentage_text(value as nat),
{
    let mut s = new_text();
    proof {
        lemma_byte_field_len(value as nat, 3);
    }
    push_padded(&mut s, value, 3, ' ');
    assert(text_of(s) =~= percentage_text(value as nat));
    s
}

/// Formats a time reading as `hh:mm:ss`, the hours padded with a space.
pub fn format_time(t: &TimeReading) -> (r: Text)
    ensures
        text_of(r) == time_text(*t),
{
    let mut s = new_text();
    proof {
        lemma_byte_field_len(t.hours as nat, 2);
        lemma_byte_field_len(t.minutes as nat, 2);
        lemma_byte_field_len(t.seconds as nat, 2);
    }
    push_padded(&mut s, t.hours, 2, ' ');
    let _ = push_char(&mut s, ':');
    push_padded(&mut s, t.minutes, 2, '0');
    let _ = push_char(&mut s, ':');
    push_padded(&mut s, t.seconds, 2, '0');
    assert(text_of(s) =~= time_text(*t));
    s
}

/// The percentage field always has three characters, and its last one is the
/// least significant digit, never blanked.
pub proof fn lemma_percentage_field_fixed_width(v: nat)
    requires
        v < 1000,
    ensures
        percentage_text(v).len() == 3,
        percentage_text(v)[2] == digit_char(v % 10),
{
    reveal_with_fuel(num_digits, 4);
    reveal_with_fuel(pow10, 3);
    assert(field_len(v, 3) == 3);
    assert(percentage_text(v)[2] == rank_char(v, 0, ' '));
    assert(pow10(0) == 1);
    assert(v / 1 == v) by (nonlinear_arith);
}

} // verus!
