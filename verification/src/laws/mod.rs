//! What callers can rely on, stated on arguments and results alone.
//!
//! Each law takes the arguments of one or more calls together with their results, and says
//! how they relate.

use vstd::prelude::*;

pub mod auth;
pub mod basics;
pub mod batch;
pub mod capture;
pub mod gateway;
pub mod grpc;
pub mod pipeline;

verus! {

/// The number in two bytes, low byte first.
pub open spec fn le16(s: Seq<u8>, at: int) -> int {
    s[at] + 256 * s[at + 1]
}

/// The number in four bytes, low byte first.
pub open spec fn le32(s: Seq<u8>, at: int) -> int {
    s[at] + 256 * s[at + 1] + 65_536 * s[at + 2] + 16_777_216 * s[at + 3]
}

/// What a 32-bit number stands for in two's complement.
pub open spec fn twos(n: int) -> int {
    if n < 2_147_483_648 {
        n
    } else {
        n - 4_294_967_296
    }
}

/// The value of a digit, in lower case: a number from 0 to 15, or -1 for what is no digit.
pub open spec fn digit_value(c: char) -> int {
    if '0' <= c <= '9' {
        c as int - '0' as int
    } else if 'a' <= c <= 'f' {
        c as int - 'a' as int + 10
    } else {
        -1
    }
}

/// The number that a numeral stands for.
pub open spec fn numeral_value(s: Seq<char>, base: int) -> int
    decreases s.len(),
{
    if s.len() == 0 {
        0
    } else {
        numeral_value(s.drop_last(), base) * base + digit_value(s.last())
    }
}

/// Whether a text is the numeral of a number: it has digits of the base only, no zero in
/// front unless that is all of it, and stands for the number.
pub open spec fn is_numeral(s: Seq<char>, base: int, n: int) -> bool {
    &&& s.len() > 0
    &&& forall|i: int| 0 <= i < s.len() ==> 0 <= #[trigger] digit_value(s[i]) < base
    &&& s.len() > 1 ==> s[0] != '0'
    &&& numeral_value(s, base) == n
}

} // verus!
