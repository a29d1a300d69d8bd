//! Text building blocks: numerals, trimming, prefixes and UTF-16 code units.

use vstd::prelude::*;
use vstd::string::*;

verus! {

/// The digit character for a value below sixteen.
pub open spec fn digit_char(d: nat) -> char {
    if d < 10 {
        (48 + d) as char
    } else {
        (87 + d) as char
    }
}

/// The decimal numeral of a number, without leading zeros.
pub open spec fn decimal(n: nat) -> Seq<char>
    decreases n,
{
    if n < 10 {
        seq![digit_char(n)]
    } else {
        decimal(n / 10).push(digit_char(n % 10))
    }
}

/// The lower-case hexadecimal numeral of a number, without leading zeros.
pub open spec fn hexadecimal(n: nat) -> Seq<char>
    decreases n,
{
    if n < 16 {
        seq![digit_char(n)]
    } else {
        hexadecimal(n / 16).push(digit_char(n % 16))
    }
}

/// Returns the one-character text of a digit below sixteen.
fn digit_text(d: u8) -> (r: &'static str)
    requires
        d < 16,
    ensures
        r@ == seq![digit_char(d as nat)],
{
    proof {
        reveal_strlit("0");
        reveal_strlit("1");
        reveal_strlit("2");
        reveal_strlit("3");
        reveal_strlit("4");
        reveal_strlit("5");
        reveal_strlit("6");
        reveal_strlit("7");
        reveal_strlit("8");
        reveal_strlit("9");
        reveal_strlit("a");
        reveal_strlit("b");
        reveal_strlit("c");
        reveal_strlit("d");
        reveal_strlit("e");
        reveal_strlit("f");
    }
    match d {
        0 => "0",
        1 => "1",
        2 => "2",
        3 => "3",
        4 => "4",
        5 => "5",
        6 => "6",
        7 => "7",
        8 => "8",
        9 => "9",
        10 => "a",
        11 => "b",
        12 => "c",
        13 => "d",
        14 => "e",
        _ => "f",
    }
}

/// Returns the decimal numeral of `n`.
pub fn decimal_text(n: u64) -> (r: String)
    ensures
        r@ == decimal(n as nat),
    decreases n,
{
    if n < 10 {
        digit_text(n as u8).to_owned()
    } else {
        let mut r = decimal_text(n / 10);
        r.append(digit_text((n % 10) as u8));
        r
    }
}

/// Returns the lower-case hexadecimal numeral of `n`.
pub fn hexadecimal_text(n: u128) -> (r: String)
    ensures
        r@ == hexadecimal(n as nat),
    decreases n,
{
    if n < 16 {
        digit_text(n as u8).to_owned()
    } else {
        let mut r = hexadecimal_text(n / 16);
        r.append(digit_text((n % 16) as u8));
        r
    }
}

/// Distinct numbers have distinct hexadecimal numerals.
pub proof fn hexadecimal_is_injective(a: nat, b: nat)
    requires
        hexadecimal(a) == hexadecimal(b),
    ensures
        a == b,
    decreases a,
{
    let x = hexadecimal(a);
    let y = hexadecimal(b);
    hexadecimal_is_nonempty(a / 16);
    hexadecimal_is_nonempty(b / 16);
    assert(x.last() == digit_char(a % 16));
    assert(y.last() == digit_char(b % 16));
    assert(a % 16 == b % 16);
    if a >= 16 && b >= 16 {
        assert(x.drop_last() =~= hexadecimal(a / 16));
        assert(y.drop_last() =~= hexadecimal(b / 16));
        hexadecimal_is_injective(a / 16, b / 16);
    }
}

/// Every hexadecimal numeral has at least one digit.
proof fn hexadecimal_is_nonempty(n: nat)
    ensures
        hexadecimal(n).len() > 0,
{
}

/// A text without the copies of `c` at its end.
pub open spec fn trimmed_end(s: Seq<char>, c: char) -> Seq<char>
    decreases s.len(),
{
    if s.len() > 0 && s.last() == c {
        trimmed_end(s.drop_last(), c)
    } else {
        s
    }
}

/// Returns `s` without the copies of `c` at its end.
pub fn trim_end_char(s: &str, c: char) -> (r: &str)
    ensures
        r@ == trimmed_end(s@, c),
{
    let mut end: usize = s.unicode_len();
    proof {
        assert(s@.take(end as int) =~= s@);
    }
    while end > 0 && s.get_char(end - 1) == c
        invariant
            end <= s@.len(),
            trimmed_end(s@.take(end as int), c) == trimmed_end(s@, c),
        decreases end,
    {
        proof {
            assert(s@.take(end as int).drop_last() =~= s@.take(end - 1));
        }
        end = end - 1;
    }
    proof {
        assert(s@.subrange(0, end as int) =~= s@.take(end as int));
    }
    s.substring_char(0, end)
}

/// Trimming twice changes nothing more.
pub proof fn trimmed_end_is_idempotent(s: Seq<char>, c: char)
    ensures
        trimmed_end(trimmed_end(s, c), c) == trimmed_end(s, c),
    decreases s.len(),
{
    if s.len() > 0 && s.last() == c {
        trimmed_end_is_idempotent(s.drop_last(), c);
    }
}

/// Whether `s` begins with `prefix`.
pub open spec fn begins_with(s: Seq<char>, prefix: Seq<char>) -> bool {
    prefix.len() <= s.len() && s.take(prefix.len() as int) == prefix
}

/// Returns what follows `prefix` in `s`, where `s` begins with it.
pub fn strip_prefix<'a>(s: &'a str, prefix: &str) -> (r: Option<&'a str>)
    ensures
        match r {
            Some(rest) => begins_with(s@, prefix@) && rest@ == s@.skip(prefix@.len() as int),
            None => !begins_with(s@, prefix@),
        },
{
    let len: usize = s.unicode_len();
    let head: usize = prefix.unicode_len();
    if head > len {
        return None;
    }
    proof {
        assert(s@.subrange(0, head as int) =~= s@.take(head as int));
        assert(s@.subrange(head as int, len as int) =~= s@.skip(head as int));
    }
    if same_text(s.substring_char(0, head), prefix) {
        Some(s.substring_char(head, len))
    } else {
        None
    }
}

/// What comes before and after the last `c` in a text; nothing if there is none.
pub open spec fn split_at_last(s: Seq<char>, c: char) -> Option<(Seq<char>, Seq<char>)>
    decreases s.len(),
{
    if s.len() == 0 {
        None
    } else if s.last() == c {
        Some((s.drop_last(), seq![]))
    } else {
        match split_at_last(s.drop_last(), c) {
            Some((before, after)) => Some((before, after.push(s.last()))),
            None => None,
        }
    }
}

/// A split gives back the text around its last `c`, and there is no `c` after that.
pub proof fn split_is_at_the_last(s: Seq<char>, c: char)
    ensures
        match split_at_last(s, c) {
            Some((before, after)) => s == before.push(c) + after && !after.contains(c),
            None => !s.contains(c),
        },
    decreases s.len(),
{
    if s.len() > 0 {
        let front = s.drop_last();
        split_is_at_the_last(front, c);
        assert(front.push(s.last()) =~= s);
        if s.last() == c {
            assert(s =~= front.push(c) + seq![]);
        } else {
            match split_at_last(front, c) {
                Some((before, after)) => {
                    assert(s =~= before.push(c) + after.push(s.last()));
                    assert forall|i: int| 0 <= i < after.len() + 1 implies after.push(
                        s.last(),
                    )[i] != c by {
                        if i < after.len() {
                            assert(after.contains(after[i]));
                        }
                    }
                },
                None => {
                    assert forall|i: int| 0 <= i < s.len() implies s[i] != c by {
                        if i < front.len() {
                            assert(front.contains(front[i]));
                        }
                    }
                },
            }
        }
    }
}

/// Returns what comes before and after the last `c` in `s`.
pub fn rsplit_once(s: &str, c: char) -> (r: Option<(&str, &str)>)
    ensures
        match r {
            Some((before, after)) => split_at_last(s@, c) == Some((before@, after@)),
            None => split_at_last(s@, c) is None,
        },
{
    let len: usize = s.unicode_len();
    let mut end: usize = len;
    proof {
        assert(s@.take(end as int) =~= s@);
        assert(s@.skip(end as int) =~= seq![]);
    }
    while end > 0
        invariant
            end <= len,
            len == s@.len(),
            split_at_last(s@, c) == match split_at_last(s@.take(end as int), c) {
                Some((before, after)) => Some((before, after + s@.skip(end as int))),
                None => None,
            },
        decreases end,
    {
        let ghost front = s@.take(end as int);
        proof {
            assert(front.drop_last() =~= s@.take(end - 1));
            assert(front.last() == s@[end - 1]);
        }
        if s.get_char(end - 1) == c {
            proof {
                assert(s@.subrange(0, end - 1) =~= front.drop_last());
                assert(s@.subrange(end as int, len as int) =~= seq![] + s@.skip(end as int));
            }
            return Some((s.substring_char(0, end - 1), s.substring_char(end, len)));
        }
        proof {
            if let Some((before, after)) = split_at_last(front.drop_last(), c) {
                assert(after.push(front.last()) + s@.skip(end as int) =~= after + s@.skip(end - 1));
            }
        }
        end = end - 1;
    }
    None
}

/// Whether two texts are the same.
pub fn same_text(a: &str, b: &str) -> (r: bool)
    ensures
        r == (a@ == b@),
{
    a.to_owned() == b.to_owned()
}

/// Returns `a` followed by `b`.
pub fn joined(a: &str, b: &str) -> (r: String)
    ensures
        r@ == a@ + b@,
{
    let mut r = a.to_owned();
    r.append(b);
    r
}

/// The UTF-16 code units of one character: itself in the basic plane, else the
/// surrogate pair of its offset past the basic plane.
pub open spec fn utf16_units(c: char) -> Seq<u16> {
    let code = c as int;
    if code < 0x1_0000 {
        seq![code as u16]
    } else {
        seq![
            (0xD800 + (code - 0x1_0000) / 0x400) as u16,
            (0xDC00 + (code - 0x1_0000) % 0x400) as u16,
        ]
    }
}

/// The UTF-16 code units of a text.
pub open spec fn utf16(s: Seq<char>) -> Seq<u16>
    decreases s.len(),
{
    if s.len() == 0 {
        seq![]
    } else {
        utf16(s.drop_last()) + utf16_units(s.last())
    }
}

/// Returns the UTF-16 code units of `s`.
pub fn encode_utf16(s: &str) -> (r: Vec<u16>)
    ensures
        r@ == utf16(s@),
{
    let mut r: Vec<u16> = Vec::new();
    let len: usize = s.unicode_len();
    let mut i: usize = 0;
    proof {
        assert(s@.take(0) =~= seq![]);
    }
    while i < len
        invariant
            i <= len,
            len == s@.len(),
            r@ == utf16(s@.take(i as int)),
        decreases len - i,
    {
        let c: char = s.get_char(i);
        let code: u32 = c as u32;
        proof {
            assert(s@.take(i + 1).drop_last() =~= s@.take(i as int));
            assert(s@.take(i + 1).last() == c);
        }
        if code < 0x1_0000 {
            r.push(code as u16);
        } else {
            let offset: u32 = code - 0x1_0000;
            r.push((0xD800 + offset / 0x400) as u16);
            r.push((0xDC00 + offset % 0x400) as u16);
        }
        proof {
            assert(r@ =~= utf16(s@.take(i as int)) + utf16_units(c));
        }
        i = i + 1;
    }
    proof {
        assert(s@.take(len as int) =~= s@);
    }
    r
}

} // verus!
