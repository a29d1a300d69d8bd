//! Laws of numbers, texts and spans of time.

use vstd::prelude::*;
use vstd::string::*;

use super::{digit_value, is_numeral, le16, le32, numeral_value, twos};
use crate::float32::{scaled_is_increasing, Float32};
use crate::text::{
    decimal, decimal_text, encode_utf16, hexadecimal, hexadecimal_text, joined,
    rsplit_once, same_text, split_is_at_the_last, strip_prefix, trim_end_char, trimmed_end, utf16,
    utf16_units,
};
use crate::time::{epoch_millis, Duration};
use crate::wire::{push_i32, push_u16, push_u32, read_i32, read_u16, read_u32, to_signed32};

verus! {

/// Integers are read low byte first, and signed ones in two's complement.
pub proof fn integers_are_read_low_byte_first(
    buf: &[u8],
    at: usize,
    short: u16,
    long: u32,
    signed: i32,
)
    requires
        at + 4 <= buf@.len(),
        call_ensures(read_u16, (buf, at), short),
        call_ensures(read_u32, (buf, at), long),
        call_ensures(read_i32, (buf, at), signed),
    ensures
        short == le16(buf@, at as int),
        long == le32(buf@, at as int),
        signed == twos(le32(buf@, at as int)),
{
}

/// A 32-bit pattern is read in two's complement.
pub proof fn patterns_are_read_in_twos_complement(u: u32, r: i32)
    requires
        call_ensures(to_signed32, (u,), r),
    ensures
        r == twos(u as int),
{
}

/// A 16-bit integer is appended as two bytes that read as it, and nothing before them
/// changes.
pub proof fn short_integers_are_appended(buf: &mut Vec<u8>, x: u16)
    requires
        call_ensures(push_u16, (buf, x), ()),
    ensures
        final(buf)@.len() == old(buf)@.len() + 2,
        final(buf)@.take(old(buf)@.len() as int) == old(buf)@,
        le16(final(buf)@, old(buf)@.len() as int) == x,
{
    assert(final(buf)@.take(old(buf)@.len() as int) =~= old(buf)@);
}

/// A 32-bit integer is appended as four bytes that read as it, and nothing before them
/// changes.
pub proof fn long_integers_are_appended(buf: &mut Vec<u8>, x: u32)
    requires
        call_ensures(push_u32, (buf, x), ()),
    ensures
        final(buf)@.len() == old(buf)@.len() + 4,
        final(buf)@.take(old(buf)@.len() as int) == old(buf)@,
        le32(final(buf)@, old(buf)@.len() as int) == x,
{
    assert(final(buf)@.take(old(buf)@.len() as int) =~= old(buf)@);
}

/// A signed 32-bit integer is appended as four bytes that read as it, and nothing before them
/// changes.
pub proof fn signed_integers_are_appended(buf: &mut Vec<u8>, x: i32)
    requires
        call_ensures(push_i32, (buf, x), ()),
    ensures
        final(buf)@.len() == old(buf)@.len() + 4,
        final(buf)@.take(old(buf)@.len() as int) == old(buf)@,
        twos(le32(final(buf)@, old(buf)@.len() as int)) == x,
{
    assert(final(buf)@.take(old(buf)@.len() as int) =~= old(buf)@);
}

/// A numeral built from digits stands for its number.
pub(crate) proof fn decimals_are_numerals(n: nat)
    ensures
        is_numeral(decimal(n), 10, n as int),
        n > 0 ==> decimal(n)[0] != '0',
    decreases n,
{
    let s = decimal(n);
    if n < 10 {
        assert(digit_value(s[0]) == n);
        assert(s.drop_last() =~= seq![]);
        reveal_with_fuel(numeral_value, 2);
    } else {
        decimals_are_numerals(n / 10);
        assert(s.drop_last() =~= decimal(n / 10));
        assert(digit_value(s.last()) == n % 10);
        assert forall|i: int| 0 <= i < s.len() implies 0 <= #[trigger] digit_value(s[i]) < 10 by {
            if i < s.len() - 1 {
                assert(s[i] == decimal(n / 10)[i]);
            }
        }
        assert(s[0] == decimal(n / 10)[0]);
    }
}

/// A numeral built from hexadecimal digits stands for its number.
pub(crate) proof fn hexadecimals_are_numerals(n: nat)
    ensures
        is_numeral(hexadecimal(n), 16, n as int),
        n > 0 ==> hexadecimal(n)[0] != '0',
    decreases n,
{
    let s = hexadecimal(n);
    if n < 16 {
        assert(digit_value(s[0]) == n);
        assert(s.drop_last() =~= seq![]);
        reveal_with_fuel(numeral_value, 2);
    } else {
        hexadecimals_are_numerals(n / 16);
        assert(s.drop_last() =~= hexadecimal(n / 16));
        assert(digit_value(s.last()) == n % 16);
        assert forall|i: int| 0 <= i < s.len() implies 0 <= #[trigger] digit_value(s[i]) < 16 by {
            if i < s.len() - 1 {
                assert(s[i] == hexadecimal(n / 16)[i]);
            }
        }
        assert(s[0] == hexadecimal(n / 16)[0]);
    }
}

/// A decimal numeral stands for its number.
pub proof fn decimals_stand_for_their_number(n: u64, r: String)
    requires
        call_ensures(decimal_text, (n,), r),
    ensures
        is_numeral(r@, 10, n as int),
{
    decimals_are_numerals(n as nat);
}

/// A hexadecimal numeral stands for its number.
pub proof fn hexadecimals_stand_for_their_number(n: u128, r: String)
    requires
        call_ensures(hexadecimal_text, (n,), r),
    ensures
        is_numeral(r@, 16, n as int),
{
    hexadecimals_are_numerals(n as nat);
}

/// What is trimmed is a run of the character at the end, and all of it.
pub(crate) proof fn only_the_end_is_trimmed(s: Seq<char>, c: char)
    ensures
        trimmed_end(s, c).len() <= s.len(),
        s.take(trimmed_end(s, c).len() as int) == trimmed_end(s, c),
        forall|i: int| trimmed_end(s, c).len() <= i < s.len() ==> s[i] == c,
        trimmed_end(s, c).len() > 0 ==> trimmed_end(s, c).last() != c,
    decreases s.len(),
{
    if s.len() > 0 && s.last() == c {
        let front = s.drop_last();
        only_the_end_is_trimmed(front, c);
        let kept = trimmed_end(s, c);
        assert(s.take(kept.len() as int) =~= front.take(kept.len() as int));
        assert forall|i: int| kept.len() <= i < s.len() implies s[i] == c by {
            if i < front.len() {
                assert(front[i] == s[i]);
            }
        }
    } else {
        assert(s.take(s.len() as int) =~= s);
    }
}

/// Trimming takes away the copies of a character at the end of a text, all of them and
/// nothing else.
pub proof fn trimming_takes_the_end_only(s: &str, c: char, r: &str)
    requires
        call_ensures(trim_end_char, (s, c), r),
    ensures
        r@.len() <= s@.len(),
        r@ == s@.take(r@.len() as int),
        forall|i: int| r@.len() <= i < s@.len() ==> s@[i] == c,
        r@.len() > 0 ==> r@.last() != c,
{
    only_the_end_is_trimmed(s@, c);
}

/// What is left of a text without its prefix makes the text again behind the prefix, and
/// nothing is left where nothing does.
pub proof fn prefixes_are_stripped(s: &str, prefix: &str, r: Option<&str>)
    requires
        call_ensures(strip_prefix, (s, prefix), r),
    ensures
        match r {
            Some(rest) => s@ == prefix@ + rest@,
            None => forall|rest: Seq<char>| s@ != #[trigger] (prefix@ + rest),
        },
{
    match r {
        Some(rest) => {
            assert(s@ =~= prefix@ + rest@);
        },
        None => {
            assert forall|rest: Seq<char>| s@ != #[trigger] (prefix@ + rest) by {
                if s@ == prefix@ + rest {
                    assert(s@.take(prefix@.len() as int) =~= prefix@);
                }
            }
        },
    }
}

/// A text is split at the last of a character.
pub proof fn texts_are_split_at_the_last(s: &str, c: char, r: Option<(&str, &str)>)
    requires
        call_ensures(rsplit_once, (s, c), r),
    ensures
        match r {
            Some((before, after)) => s@ == before@ + seq![c] + after@ && !after@.contains(c),
            None => !s@.contains(c),
        },
{
    split_is_at_the_last(s@, c);
    if let Some((before, after)) = r {
        assert(before@ + seq![c] + after@ =~= before@.push(c) + after@);
    }
}

/// Texts are the same if they have the same characters.
pub proof fn same_texts_have_the_same_characters(a: &str, b: &str, r: bool)
    requires
        call_ensures(same_text, (a, b), r),
    ensures
        r <==> (a@.len() == b@.len() && forall|i: int| 0 <= i < a@.len() ==> a@[i] == b@[i]),
{
    if a@.len() == b@.len() && forall|i: int| 0 <= i < a@.len() ==> a@[i] == b@[i] {
        assert(a@ =~= b@);
    }
}

/// Joined texts follow each other.
pub proof fn joined_texts_follow_each_other(a: &str, b: &str, r: String)
    requires
        call_ensures(joined, (a, b), r),
    ensures
        r@.len() == a@.len() + b@.len(),
        r@.take(a@.len() as int) == a@,
        r@.skip(a@.len() as int) == b@,
{
    assert(r@.take(a@.len() as int) =~= a@);
    assert(r@.skip(a@.len() as int) =~= b@);
}

/// The code points that a run of UTF-16 code units stands for.
pub open spec fn code_points(units: Seq<u16>) -> Seq<int>
    decreases units.len(),
{
    if units.len() == 0 {
        seq![]
    } else if 0xD800 <= units[0] < 0xDC00 && units.len() > 1 {
        seq![0x1_0000 + (units[0] - 0xD800) * 0x400 + (units[1] - 0xDC00)] + code_points(
            units.skip(2),
        )
    } else {
        seq![units[0] as int] + code_points(units.skip(1))
    }
}

/// The code units of one character stand for it, whatever follows.
proof fn one_character_is_decoded(c: char, rest: Seq<u16>)
    ensures
        code_points(utf16_units(c) + rest) == seq![c as int] + code_points(rest),
{
    let units = utf16_units(c) + rest;
    if (c as int) < 0x1_0000 {
        assert(units.skip(1) =~= rest);
        assert(!(0xD800 <= units[0] < 0xDC00));
    } else {
        assert(units.skip(2) =~= rest);
    }
}

/// The code units of a text stand for it, whatever follows.
pub(crate) proof fn texts_are_decoded(s: Seq<char>, rest: Seq<u16>)
    ensures
        code_points(utf16(s) + rest) == s.map_values(|c: char| c as int) + code_points(rest),
    decreases s.len(),
{
    if s.len() == 0 {
        assert(utf16(s) + rest =~= rest);
        assert(s.map_values(|c: char| c as int) + code_points(rest) =~= code_points(rest));
    } else {
        let front = s.drop_last();
        texts_are_decoded(front, utf16_units(s.last()) + rest);
        one_character_is_decoded(s.last(), rest);
        assert(utf16(s) + rest =~= utf16(front) + (utf16_units(s.last()) + rest));
        assert(s.map_values(|c: char| c as int) + code_points(rest) =~= front.map_values(
            |c: char| c as int,
        ) + (seq![s.last() as int] + code_points(rest)));
    }
}

/// The UTF-16 code units of a text stand for its characters.
pub proof fn utf16_is_decoded_to_the_text(s: &str, r: Vec<u16>)
    requires
        call_ensures(encode_utf16, (s,), r),
    ensures
        code_points(r@).len() == s@.len(),
        forall|i: int| 0 <= i < s@.len() ==> #[trigger] code_points(r@)[i] == s@[i] as int,
{
    texts_are_decoded(s@, seq![]);
    assert(utf16(s@) + seq![] =~= utf16(s@));
}

/// Spans of time in milliseconds and in seconds.
pub proof fn spans_count_nanoseconds(millis: u64, a: Duration, secs: u64, b: Duration)
    requires
        call_ensures(Duration::from_millis, (millis,), a),
        call_ensures(Duration::from_secs, (secs,), b),
    ensures
        a.nanos == millis * 1_000_000,
        b.nanos == secs * 1_000_000_000,
        millis == secs * 1000 ==> a == b,
{
}

/// A timestamp is the time since the epoch, modulo 2^64.
pub proof fn timestamps_are_the_time_since_the_epoch(since_epoch: Option<u128>, r: i64)
    requires
        call_ensures(epoch_millis, (since_epoch,), r),
    ensures
        since_epoch is None ==> r == 0,
        since_epoch matches Some(ms) ==> {
            &&& (ms - r) % 0x1_0000_0000_0000_0000 == 0
            &&& ms < 0x8000_0000_0000_0000 ==> r == ms
        },
{
}

/// A number of finite magnitude stands for its fraction scaled by its exponent, and the sign
/// bit negates it.
pub proof fn patterns_are_binary32(x: Float32)
    ensures
        ({
            let exponent = x.bits as int / 0x80_0000 % 256;
            let fraction = x.bits as int % 0x80_0000;
            let size = if exponent == 0 {
                fraction
            } else {
                (fraction + 0x80_0000) * vstd::arithmetic::power2::pow2((exponent - 1) as nat)
            };
            &&& x.is_nan() <==> exponent == 255 && fraction > 0
            &&& x.value() == if x.bits < 0x8000_0000 {
                size
            } else {
                -size
            }
        }),
{
    let m = x.bits as int % 0x8000_0000;
    assert(m / 0x80_0000 == x.bits as int / 0x80_0000 % 256);
    assert(m % 0x80_0000 == x.bits as int % 0x80_0000);
}

/// A number within its bounds stays as it is, one beyond them becomes the nearer bound, and
/// what is not a number stays as it is.
pub proof fn clamping_gives_the_nearest_in_range(x: Float32, low: Float32, high: Float32, r: Float32)
    requires
        !low.is_nan(),
        !high.is_nan(),
        low.value() <= high.value(),
        call_ensures(Float32::clamp, (x, low, high), r),
    ensures
        x.is_nan() ==> r == x,
        !x.is_nan() && low.value() <= x.value() <= high.value() ==> r == x,
        !x.is_nan() && x.value() < low.value() ==> r == low,
        !x.is_nan() && x.value() > high.value() ==> r == high,
{
}

/// Where a pattern stands among the numbers from 0 to 1.
pub proof fn patterns_from_zero_to_one(x: Float32)
    ensures
        ({
            let zero = Float32 { bits: 0 };
            let one = Float32 { bits: 0x3f80_0000 };
            &&& !zero.is_nan() && !one.is_nan() && zero.value() < one.value()
            &&& x.bits <= 0x3f80_0000 || x.bits == 0x8000_0000 <==> !x.is_nan() && zero.value()
                <= x.value() <= one.value()
            &&& 0x3f80_0000 < x.bits <= 0x7f80_0000 <==> !x.is_nan() && x.value() > one.value()
            &&& 0x8000_0000 < x.bits <= 0xff80_0000 <==> !x.is_nan() && x.value() < zero.value()
        }),
{
    let m = x.magnitude();
    scaled_is_increasing(m, 0x3f80_0000);
    scaled_is_increasing(0x3f80_0000, m);
    scaled_is_increasing(0, m);
    scaled_is_increasing(0, 0x3f80_0000);
}

/// Where a pattern stands among the numbers from -1 to 1.
pub proof fn patterns_from_minus_one_to_one(x: Float32)
    ensures
        ({
            let low = Float32 { bits: 0xbf80_0000 };
            let high = Float32 { bits: 0x3f80_0000 };
            &&& !low.is_nan() && !high.is_nan() && low.value() < high.value()
            &&& x.bits <= 0x3f80_0000 || 0x8000_0000 <= x.bits <= 0xbf80_0000 <==> !x.is_nan()
                && low.value() <= x.value() <= high.value()
            &&& 0x3f80_0000 < x.bits <= 0x7f80_0000 <==> !x.is_nan() && x.value() > high.value()
            &&& 0xbf80_0000 < x.bits <= 0xff80_0000 <==> !x.is_nan() && x.value() < low.value()
        }),
{
    let m = x.magnitude();
    scaled_is_increasing(m, 0x3f80_0000);
    scaled_is_increasing(0x3f80_0000, m);
    scaled_is_increasing(0, m);
    scaled_is_increasing(0, 0x3f80_0000);
}

/// Every text and number is taken, and reads stay within their bytes.
pub proof fn basics_take_everything(
    buf: &[u8],
    at: usize,
    bytes: &mut Vec<u8>,
    short: u16,
    long: u32,
    signed: i32,
    n: u64,
    wide: u128,
    a: &str,
    b: &str,
    c: char,
    time: Option<u128>,
    x: Float32,
    low: Float32,
    high: Float32,
)
    ensures
        at + 2 <= buf@.len() ==> call_requires(read_u16, (buf, at)),
        at + 4 <= buf@.len() ==> call_requires(read_u32, (buf, at)),
        at + 4 <= buf@.len() ==> call_requires(read_i32, (buf, at)),
        call_requires(to_signed32, (long,)),
        call_requires(push_u16, (bytes, short)),
        call_requires(push_u32, (bytes, long)),
        call_requires(push_i32, (bytes, signed)),
        call_requires(decimal_text, (n,)),
        call_requires(hexadecimal_text, (wide,)),
        call_requires(trim_end_char, (a, c)),
        call_requires(strip_prefix, (a, b)),
        call_requires(rsplit_once, (a, c)),
        call_requires(same_text, (a, b)),
        call_requires(joined, (a, b)),
        call_requires(encode_utf16, (a,)),
        call_requires(Duration::from_millis, (n,)),
        call_requires(Duration::from_secs, (n,)),
        call_requires(epoch_millis, (time,)),
        !low.is_nan() && !high.is_nan() && low.value() <= high.value() ==> call_requires(
            Float32::clamp,
            (x, low, high),
        ),
{
}

} // verus!
