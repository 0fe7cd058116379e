use vstd::prelude::*;
use vstd::string::*;
use vstd::utf8::*;
use crate::query::{decimal, decimal_text, digit_chars, digit_str};

verus! {

/// Whether a price (in minor currency units) is acceptable: never negative.
pub fn validate_price(price: i64) -> (r: bool)
    ensures
        r == (price >= 0),
{
    price >= 0
}

/// `s` cut down to its first `max_len` bytes followed by `"..."`, or `s`
/// itself when it is not longer than `max_len` bytes.
pub open spec fn truncated(s: Seq<char>, max_len: int) -> Seq<char> {
    if encode_utf8(s).len() <= max_len {
        s
    } else {
        decode_utf8(encode_utf8(s).subrange(0, max_len)) + seq!['.', '.', '.']
    }
}

/// Truncates `s` to at most `max_len` bytes, marking a cut with an ellipsis.
/// The cut must fall on a character boundary.
pub fn truncate_string(s: &str, max_len: usize) -> (r: String)
    requires
        s.spec_bytes().len() <= max_len || is_char_boundary(s.spec_bytes(), max_len as int),
    ensures
        r@ == truncated(s@, max_len as int),
{
    if s.as_bytes().len() <= max_len {
        String::from_str(s)
    } else {
        let (head, _tail) = s.split_at(max_len);
        let r = String::from_str(head).concat("...");
        proof {
            reveal_strlit("...");
            encode_utf8_decode_utf8(head@);
            assert(encode_utf8(head@) == encode_utf8(s@).subrange(0, max_len as int));
            assert(r@ =~= truncated(s@, max_len as int));
        }
        r
    }
}

/// The three decimal digits of `k` (`k < 1000`), with leading zeros.
pub open spec fn three_digits(k: nat) -> Seq<char> {
    seq![digit_chars()[(k / 100) as int], digit_chars()[((k / 10) % 10) as int], digit_chars()[(k % 10) as int]]
}

/// Decimal notation of `n` with its digits grouped in threes from the right,
/// the groups separated by `.`.
pub open spec fn grouped(n: nat) -> Seq<char>
    decreases n,
{
    if n < 1000 {
        decimal(n)
    } else {
        grouped(n / 1000) + "."@ + three_digits(n % 1000)
    }
}

/// The amount `n` written as Indonesian Rupiah.
pub open spec fn rupiah(n: nat) -> Seq<char> {
    "Rp "@ + grouped(n)
}

fn group_digits(n: u64) -> (r: String)
    ensures
        r@ == grouped(n as nat),
    decreases n,
{
    if n < 1000 {
        decimal_text(n)
    } else {
        let head = group_digits(n / 1000);
        let k = n % 1000;
        let r = head.concat(".").concat(digit_str(k / 100)).concat(digit_str((k / 10) % 10)).concat(
            digit_str(k % 10),
        );
        proof {
            reveal_strlit(".");
            assert(r@ =~= grouped(n as nat));
        }
        r
    }
}

/// Formats a whole amount of Rupiah with dots between thousands, such as
/// `"Rp 1.500"`.
pub fn format_rupiah(amount: u64) -> (r: String)
    ensures
        r@ == rupiah(amount as nat),
{
    let digits = group_digits(amount);
    let r = String::from_str("Rp ").concat(digits.as_str());
    r
}

} // verus!
