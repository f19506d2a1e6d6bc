//! Resource names: a literal tag followed by a number in hexadecimal.

use vstd::prelude::*;
use vstd::arithmetic::div_mod::lemma_div_denominator;

verus! {

/// The ASCII character of one hexadecimal digit, upper case for ten to fifteen.
pub open spec fn hex_char(digit: nat) -> u8 {
    if digit < 10 {
        (48 + digit) as u8
    } else {
        (55 + digit) as u8
    }
}

/// Sixteen to the power `exp`.
pub open spec fn pow16(exp: nat) -> nat
    decreases exp,
{
    if exp == 0 {
        1
    } else {
        16 * pow16((exp - 1) as nat)
    }
}

/// The `width` lowest hexadecimal digits of `number`, most significant first.
pub open spec fn hex_digits(number: nat, width: nat) -> Seq<u8>
    decreases width,
{
    if width == 0 {
        Seq::empty()
    } else {
        hex_digits(number / 16, (width - 1) as nat).push(hex_char(number % 16))
    }
}

/// The number of hexadecimal digits of a `usize`.
pub open spec fn hex_width() -> nat {
    (usize::BITS / 4) as nat
}

/// `hex_digits` has `width` characters, and the one that stands `back`
/// places before the last is the digit of weight `pow16(back)`.
pub proof fn lemma_hex_digits_index(number: nat, width: nat, back: nat)
    requires
        back < width,
    ensures
        hex_digits(number, width).len() == width,
        pow16(back) > 0,
        hex_digits(number, width)[width - 1 - back] == hex_char((number / pow16(back)) % 16),
    decreases width,
{
    lemma_hex_digits_len(number, width);
    lemma_pow16_positive(back);
    let head = hex_digits(number / 16, (width - 1) as nat);
    lemma_hex_digits_len(number / 16, (width - 1) as nat);
    assert(hex_digits(number, width) == head.push(hex_char(number % 16)));
    if back > 0 {
        let lower = (back - 1) as nat;
        lemma_hex_digits_index(number / 16, (width - 1) as nat, lower);
        lemma_div_denominator(number as int, 16, pow16(lower) as int);
        assert(16 * pow16(lower) == pow16(back));
        assert((number / 16) / pow16(lower) == number / pow16(back));
        assert(head.push(hex_char(number % 16))[width - 1 - back] == head[width - 2 - lower]);
    } else {
        assert(pow16(0) == 1);
        assert(number / 1 == number);
    }
}

/// `hex_digits` has exactly `width` characters.
pub proof fn lemma_hex_digits_len(number: nat, width: nat)
    ensures
        hex_digits(number, width).len() == width,
    decreases width,
{
    if width > 0 {
        lemma_hex_digits_len(number / 16, (width - 1) as nat);
    }
}

/// Every character of `hex_digits` is a digit or an upper-case letter from
/// `A` to `F`.
pub proof fn lemma_hex_digits_are_ascii(number: nat, width: nat, i: int)
    requires
        0 <= i < width,
    ensures
        hex_digits(number, width).len() == width,
        48 <= hex_digits(number, width)[i] <= 57 || 65 <= hex_digits(number, width)[i] <= 70,
{
    let back = (width - 1 - i) as nat;
    lemma_hex_digits_index(number, width, back);
}

/// A power of sixteen is never zero.
pub proof fn lemma_pow16_positive(exp: nat)
    ensures
        pow16(exp) > 0,
    decreases exp,
{
    if exp > 0 {
        lemma_pow16_positive((exp - 1) as nat);
    }
}

/// Two different numbers that both fit in `width` digits are written
/// differently.
pub proof fn lemma_hex_digits_injective(a: nat, b: nat, width: nat)
    requires
        a < pow16(width),
        b < pow16(width),
        a != b,
    ensures
        hex_digits(a, width) != hex_digits(b, width),
    decreases width,
{
    if width > 0 {
        let head_a = hex_digits(a / 16, (width - 1) as nat);
        let head_b = hex_digits(b / 16, (width - 1) as nat);
        lemma_hex_digits_len(a / 16, (width - 1) as nat);
        lemma_hex_digits_len(b / 16, (width - 1) as nat);
        if hex_digits(a, width) == hex_digits(b, width) {
            let last = (width - 1) as int;
            assert(head_a.push(hex_char(a % 16))[last] == hex_char(a % 16));
            assert(head_b.push(hex_char(b % 16))[last] == hex_char(b % 16));
            assert(a % 16 == b % 16);
            assert(head_a =~= hex_digits(a, width).drop_last());
            assert(head_b =~= hex_digits(b, width).drop_last());
            if a / 16 != b / 16 {
                lemma_hex_digits_injective(a / 16, b / 16, (width - 1) as nat);
            }
        }
    }
}

/// Every `usize` fits in `hex_width()` digits.
pub proof fn lemma_usize_fits(number: usize)
    ensures
        number < pow16(hex_width()),
{
    reveal_with_fuel(pow16, 17);
    assert(pow16(8) == 0x1_0000_0000);
    assert(pow16(16) == 0x1_0000_0000_0000_0000);
    assert(usize::BITS == 32 || usize::BITS == 64);
}

/// Writes `number` in hexadecimal into the last `hex_width()` bytes of
/// `buf`, most significant digit first, with leading zeros and upper-case
/// letters. The bytes before them are left as they were.
pub fn write_hex(number: usize, buf: &mut [u8])
    requires
        old(buf)@.len() >= hex_width(),
    ensures
        final(buf)@.len() == old(buf)@.len(),
        final(buf)@.subrange(0, old(buf)@.len() - hex_width()) == old(buf)@.subrange(
            0,
            old(buf)@.len() - hex_width(),
        ),
        final(buf)@.subrange(old(buf)@.len() - hex_width(), old(buf)@.len() as int) == hex_digits(
            number as nat,
            hex_width(),
        ),
{
    let width: usize = (usize::BITS / 4) as usize;
    let len: usize = buf.len();
    let ghost before = buf@;
    let mut rest: usize = number;
    let mut i: usize = 0;
    proof {
        assert(pow16(0) == 1);
    }
    while i < width
        invariant
            i <= width <= len,
            width == hex_width(),
            buf@.len() == len,
            before.len() == len,
            pow16(i as nat) > 0,
            rest == number as nat / pow16(i as nat),
            forall|k: int| 0 <= k < len - i ==> buf@[k] == before[k],
            forall|k: int|
                len - i <= k < len ==> #[trigger] buf@[k] == hex_char(
                    (number as nat / pow16((len - 1 - k) as nat)) % 16,
                ),
        decreases width - i,
    {
        let digit: u8 = (rest % 16) as u8;
        let c: u8 = if digit < 10 {
            48 + digit
        } else {
            55 + digit
        };
        buf[len - 1 - i] = c;
        proof {
            lemma_div_denominator(number as int, pow16(i as nat) as int, 16);
            assert(pow16(i as nat) * 16 == pow16((i + 1) as nat));
        }
        rest = rest / 16;
        i = i + 1;
    }
    proof {
        let tail = buf@.subrange(len - width, len as int);
        let digits = hex_digits(number as nat, width as nat);
        lemma_hex_digits_len(number as nat, width as nat);
        assert forall|k: int| 0 <= k < width implies tail[k] == digits[k] by {
            let back = (width - 1 - k) as nat;
            lemma_hex_digits_index(number as nat, width as nat, back);
            assert(tail[k] == buf@[len - width + k]);
        }
        assert(tail =~= digits);
        assert(buf@.subrange(0, len - width) =~= before.subrange(0, len - width));
    }
}

/// The length of every resource name, the final NUL included.
pub const NAME_LEN: usize = 32;

/// The name of the resource that `number` tells apart: the tag, the number
/// in hexadecimal, and NUL bytes up to `NAME_LEN`.
pub open spec fn name_of(tag: Seq<u8>, number: nat) -> Seq<u8> {
    tag + hex_digits(number, hex_width()) + Seq::new(
        (NAME_LEN - tag.len() - hex_width()) as nat,
        |i: int| 0u8,
    )
}

/// Whether a name with this tag leaves room for the digits and one NUL.
pub open spec fn tag_fits(tag: Seq<u8>) -> bool {
    tag.len() + hex_width() < NAME_LEN
}

/// Under one tag, two different numbers never share a name.
pub proof fn lemma_names_differ(tag: Seq<u8>, a: usize, b: usize)
    requires
        tag_fits(tag),
        a != b,
    ensures
        name_of(tag, a as nat) != name_of(tag, b as nat),
{
    let from = tag.len() as int;
    let to = from + hex_width();
    lemma_hex_digits_len(a as nat, hex_width());
    lemma_hex_digits_len(b as nat, hex_width());
    lemma_usize_fits(a);
    lemma_usize_fits(b);
    lemma_hex_digits_injective(a as nat, b as nat, hex_width());
    assert(name_of(tag, a as nat).subrange(from, to) =~= hex_digits(a as nat, hex_width()));
    assert(name_of(tag, b as nat).subrange(from, to) =~= hex_digits(b as nat, hex_width()));
}

/// A name is `NAME_LEN` bytes long and ends in NUL.
pub proof fn lemma_name_terminated(tag: Seq<u8>, number: nat)
    requires
        tag_fits(tag),
    ensures
        name_of(tag, number).len() == NAME_LEN,
        name_of(tag, number)[NAME_LEN - 1] == 0,
{
    lemma_hex_digits_len(number, hex_width());
}

/// Builds the name of the resource that `number` tells apart.
pub fn write_name(tag: &[u8], number: usize) -> (name: [u8; 32])
    requires
        tag_fits(tag@),
    ensures
        name@ == name_of(tag@, number as nat),
{
    let width: usize = (usize::BITS / 4) as usize;
    let start: usize = tag.len();
    let mut digits: [u8; 16] = [0; 16];
    write_hex(number, &mut digits);
    let mut name: [u8; 32] = [0; 32];
    let mut i: usize = 0;
    while i < start
        invariant
            i <= start == tag@.len(),
            start < 32,
            forall|k: int| 0 <= k < i ==> name@[k] == tag@[k],
            forall|k: int| i <= k < 32 ==> name@[k] == 0,
        decreases start - i,
    {
        name[i] = tag[i];
        i = i + 1;
    }
    let mut j: usize = 0;
    while j < width
        invariant
            j <= width <= 16,
            start == tag@.len(),
            start + width < 32,
            forall|k: int| 0 <= k < start ==> name@[k] == tag@[k],
            forall|k: int| start <= k < start + j ==> name@[k] == digits@[16 - width + k - start],
            forall|k: int| start + j <= k < 32 ==> name@[k] == 0,
        decreases width - j,
    {
        name[start + j] = digits[16 - width + j];
        j = j + 1;
    }
    proof {
        let text = hex_digits(number as nat, hex_width());
        lemma_hex_digits_len(number as nat, hex_width());
        assert(text == digits@.subrange(16 - width, 16));
        assert forall|k: int| 0 <= k < 32 implies name@[k] == name_of(tag@, number as nat)[k] by {
            if start <= k < start + width {
                assert(text[k - start] == digits@[16 - width + k - start]);
            }
        }
        assert(name@ =~= name_of(tag@, number as nat));
    }
    name
}

} // verus!
