//! Extraction of one header value from one line: the line is tested against a name
//! prefix once both are in lower case, and what follows the prefix is stored as text,
//! as a list of words, as a number or as bytes.
use vstd::prelude::*;
use vstd::slice::slice_to_vec;
use vstd::string::StringSliceAdditionalSpecFns;

use crate::headers::{all_digits, decimal_u64, digit_value, digits_value, unsigned_digits};
use crate::text::{chars_of, lowercase, piece, split, split_str, starts_with_exec, starts_with_folded};

verus! {

/// What follows `pattern` in `data`.
pub open spec fn after_prefix(data: Seq<char>, pattern: Seq<char>) -> Seq<char> {
    if pattern.len() <= data.len() {
        data.subrange(pattern.len() as int, data.len() as int)
    } else {
        Seq::empty()
    }
}

/// The number that `s` writes in decimal, or zero where it writes none.
pub open spec fn number_or_zero(s: Seq<char>) -> u64 {
    match decimal_u64(s) {
        Some(n) => n,
        None => 0,
    }
}

/// Whether `data` begins with `pattern` once both are in lower case.
pub fn start_with(data: &str, pattern: &str) -> (r: bool)
    ensures
        r == starts_with_folded(data@, pattern@),
{
    let d = lowercase(data);
    let p = lowercase(pattern);
    starts_with_exec(d.as_str(), p.as_str())
}

/// What follows the first `pattern@.len()` characters of `data`.
fn rest_after(data: &str, pattern: &str) -> (r: String)
    ensures
        r@ == after_prefix(data@, pattern@),
{
    let n = data.unicode_len();
    let m = pattern.unicode_len();
    if m <= n {
        piece(data, m, n)
    } else {
        String::new()
    }
}

/// Where `data` begins with `pattern` (both in lower case), stores what
/// follows the pattern in `field` and returns `true`; else leaves `field` as it is.
pub fn generate_field_string(field: &mut String, data: &str, pattern: &str) -> (r: bool)
    ensures
        r == starts_with_folded(data@, pattern@),
        r ==> final(field)@ == after_prefix(data@, pattern@),
        !r ==> *final(field) == *old(field),
{
    if start_with(data, pattern) {
        *field = rest_after(data, pattern);
        true
    } else {
        false
    }
}

/// Where `data` begins with `pattern`, stores the words of what follows it, cut at
/// every space, in `field` and returns `true`; else leaves `field` as it is.
pub fn generate_field_string_vec(field: &mut Vec<String>, data: &str, pattern: &str) -> (r: bool)
    ensures
        r == starts_with_folded(data@, pattern@),
        r ==> final(field).deep_view() == split(after_prefix(data@, pattern@), " "@),
        !r ==> *final(field) == *old(field),
{
    if start_with(data, pattern) {
        let rest = rest_after(data, pattern);
        proof {
            reveal_strlit(" ");
        }
        *field = split_str(rest.as_str(), " ");
        true
    } else {
        false
    }
}

/// Where `data` begins with `pattern`, stores the number that follows it in `field`
/// (zero where no number follows: a malformed value does not stop the parse) and
/// returns `true`; else leaves `field` as it is.
pub fn generate_field_u64(field: &mut u64, data: &str, pattern: &str) -> (r: bool)
    ensures
        r == starts_with_folded(data@, pattern@),
        r ==> *final(field) == number_or_zero(after_prefix(data@, pattern@)),
        !r ==> *final(field) == *old(field),
{
    if start_with(data, pattern) {
        let rest = rest_after(data, pattern);
        *field = match parse_u64(rest.as_str()) {
            Some(n) => n,
            None => 0,
        };
        true
    } else {
        false
    }
}

/// Stores the UTF-8 bytes of `data` in `field`.
pub fn generate_field_vec_u8(field: &mut Vec<u8>, data: &str)
    ensures
        final(field)@ == data.spec_bytes(),
{
    *field = slice_to_vec(data.as_bytes());
}

/// Reads an unsigned 64-bit number written in decimal, with an optional leading `+`.
pub fn parse_u64(s: &str) -> (r: Option<u64>)
    ensures
        r == decimal_u64(s@),
{
    let cs = chars_of(s);
    let n = cs.len();
    let start: usize = if n > 0 && cs[0] == '+' {
        1
    } else {
        0
    };
    let ghost d = unsigned_digits(s@);
    assert(d =~= cs@.subrange(start as int, n as int));
    if start == n {
        return None;
    }
    let mut value: u64 = 0;
    let mut overflow = false;
    let mut i: usize = start;
    while i < n
        invariant
            cs@ == s@,
            n == cs@.len(),
            start < n || start == 0,
            start <= i <= n,
            d == cs@.subrange(start as int, n as int),
            d == unsigned_digits(s@),
            all_digits(cs@.subrange(start as int, i as int)),
            !overflow ==> value as int == digits_value(cs@.subrange(start as int, i as int)),
            overflow ==> digits_value(cs@.subrange(start as int, i as int)) > u64::MAX,
        decreases n - i,
    {
        let c = cs[i];
        if c < '0' || c > '9' {
            assert(d[i - start] == c);
            assert(!all_digits(d));
            return None;
        }
        let digit = (c as u32 - '0' as u32) as u64;
        let ghost prev = cs@.subrange(start as int, i as int);
        let ghost next = cs@.subrange(start as int, i + 1);
        assert(next.drop_last() =~= prev);
        assert(next.last() == c);
        assert(digit_value(c) == digit as int);
        if !overflow {
            if value > (u64::MAX - digit) / 10 {
                overflow = true;
                assert(digits_value(next) == value * 10 + digit) by (nonlinear_arith)
                    requires
                        digits_value(next) == digits_value(prev) * 10 + digit_value(c),
                        value as int == digits_value(prev),
                        digit_value(c) == digit as int,
                ;
                assert(value * 10 + digit > u64::MAX) by (nonlinear_arith)
                    requires
                        value > (u64::MAX - digit) / 10,
                        digit <= 9,
                ;
            } else {
                assert(value * 10 + digit <= u64::MAX) by (nonlinear_arith)
                    requires
                        value <= (u64::MAX - digit) / 10,
                        digit <= 9,
                ;
                value = value * 10 + digit;
            }
        } else {
            assert(digits_value(next) > u64::MAX) by (nonlinear_arith)
                requires
                    digits_value(next) == digits_value(prev) * 10 + digit_value(c),
                    digits_value(prev) > u64::MAX,
                    digit_value(c) >= 0,
            ;
        }
        assert(all_digits(next)) by {
            assert forall|j: int| 0 <= j < next.len() implies '0' <= #[trigger] next[j] <= '9' by {
                if j < prev.len() {
                    assert(next[j] == prev[j]);
                }
            }
        }
        i = i + 1;
    }
    if overflow {
        None
    } else {
        Some(value)
    }
}

} // verus!
