//! String helpers the rest of the library is specified with: equality of
//! string slices, trimming of surrounding whitespace, splitting a list on
//! commas, and rendering a small signed integer in decimal.

use vstd::prelude::*;
use vstd::string::StrSliceExecFns;
use vstd::string::StringExecFns;

verus! {

/// The whitespace characters trimmed from the ends of a provider-name token.
pub open spec fn is_space_char(c: char) -> bool {
    c == ' ' || c == '\t' || c == '\n' || c == '\r' || c == '\u{c}'
}

/// `s` with its leading whitespace removed.
pub open spec fn trim_start_spec(s: Seq<char>) -> Seq<char>
    decreases s.len(),
{
    if s.len() > 0 && is_space_char(s[0]) {
        trim_start_spec(s.drop_first())
    } else {
        s
    }
}

/// `s` with its trailing whitespace removed.
pub open spec fn trim_end_spec(s: Seq<char>) -> Seq<char>
    decreases s.len(),
{
    if s.len() > 0 && is_space_char(s[s.len() - 1]) {
        trim_end_spec(s.drop_last())
    } else {
        s
    }
}

/// `s` with whitespace removed from both ends.
pub open spec fn trim_spec(s: Seq<char>) -> Seq<char> {
    trim_end_spec(trim_start_spec(s))
}

fn is_space(c: char) -> (r: bool)
    ensures
        r == is_space_char(c),
{
    c == ' ' || c == '\t' || c == '\n' || c == '\r' || c == '\u{c}'
}

fn trim_start<'a>(s: &'a str) -> (r: &'a str)
    ensures
        r@ == trim_start_spec(s@),
    decreases s@.len(),
{
    let n = s.unicode_len();
    if n > 0 && is_space(s.get_char(0)) {
        let rest = s.substring_char(1, n);
        proof {
            assert(rest@ =~= s@.drop_first());
        }
        trim_start(rest)
    } else {
        s
    }
}

fn trim_end<'a>(s: &'a str) -> (r: &'a str)
    ensures
        r@ == trim_end_spec(s@),
    decreases s@.len(),
{
    let n = s.unicode_len();
    if n > 0 && is_space(s.get_char(n - 1)) {
        let rest = s.substring_char(0, n - 1);
        proof {
            assert(rest@ =~= s@.drop_last());
        }
        trim_end(rest)
    } else {
        s
    }
}

/// Removes the whitespace of `is_space_char` from both ends of `s`.
pub fn trim_str<'a>(s: &'a str) -> (r: &'a str)
    ensures
        r@ == trim_spec(s@),
{
    trim_end(trim_start(s))
}

/// Whether two string slices hold the same characters.
pub fn str_eq(a: &str, b: &str) -> (r: bool)
    ensures
        r == (a@ == b@),
{
    let sa = a.to_owned();
    let sb = b.to_owned();
    sa == sb
}

/// The position of the first comma of `s`, or `s.len()` if there is none.
pub open spec fn first_comma_index(s: Seq<char>) -> int
    decreases s.len(),
{
    if s.len() == 0 {
        0
    } else if s[0] == ',' {
        0
    } else {
        1 + first_comma_index(s.drop_first())
    }
}

pub proof fn lemma_first_comma_index_bounds(s: Seq<char>)
    ensures
        0 <= first_comma_index(s) <= s.len(),
        first_comma_index(s) < s.len() ==> s[first_comma_index(s)] == ',',
    decreases s.len(),
{
    if s.len() > 0 && s[0] != ',' {
        lemma_first_comma_index_bounds(s.drop_first());
    }
}

fn find_comma(s: &str) -> (i: usize)
    ensures
        i as int == first_comma_index(s@),
        i <= s@.len(),
    decreases s@.len(),
{
    let n = s.unicode_len();
    if n == 0 {
        0
    } else if s.get_char(0) == ',' {
        0
    } else {
        let rest = s.substring_char(1, n);
        proof {
            assert(rest@ =~= s@.drop_first());
        }
        let j = find_comma(rest);
        1 + j
    }
}

/// The comma-separated pieces of `s`, in order; a string without a comma is
/// one piece, and every comma separates two (possibly empty) pieces.
pub open spec fn split_commas(s: Seq<char>) -> Seq<Seq<char>>
    decreases s.len(),
    via split_commas_decreases
{
    let i = first_comma_index(s);
    if i == s.len() {
        seq![s]
    } else {
        seq![s.subrange(0, i)] + split_commas(s.subrange(i + 1, s.len() as int))
    }
}

#[via_fn]
proof fn split_commas_decreases(s: Seq<char>) {
    lemma_first_comma_index_bounds(s);
}

/// Splits `s` on commas, keeping every piece in order.
pub fn split_commas_str(s: &str) -> (r: Vec<String>)
    ensures
        r@.len() == split_commas(s@).len(),
        forall|k: int| 0 <= k < r@.len() ==> r@[k]@ == split_commas(s@)[k],
    decreases s@.len(),
{
    proof {
        lemma_first_comma_index_bounds(s@);
    }
    let n = s.unicode_len();
    let i = find_comma(s);
    let mut out: Vec<String> = Vec::new();
    if i == n {
        out.push(s.to_owned());
    } else {
        let head = s.substring_char(0, i);
        let tail = s.substring_char(i + 1, n);
        out.push(head.to_owned());
        let rest = split_commas_str(tail);
        let mut k: usize = 0;
        while k < rest.len()
            invariant
                k <= rest.len(),
                out@.len() == 1 + k,
                out@[0]@ == s@.subrange(0, first_comma_index(s@)),
                forall|j: int| 0 <= j < k ==> out@[j + 1]@ == rest@[j]@,
                rest@.len() == split_commas(tail@).len(),
                forall|j: int| 0 <= j < rest@.len() ==> rest@[j]@ == split_commas(tail@)[j],
            decreases rest.len() - k,
        {
            let piece = rest[k].clone();
            out.push(piece);
            k = k + 1;
        }
        proof {
            assert(tail@ =~= s@.subrange(first_comma_index(s@) + 1, s@.len() as int));
        }
    }
    out
}

/// The character of a single decimal digit.
pub open spec fn dec_digit_char(d: int) -> char {
    if d == 0 {
        '0'
    } else if d == 1 {
        '1'
    } else if d == 2 {
        '2'
    } else if d == 3 {
        '3'
    } else if d == 4 {
        '4'
    } else if d == 5 {
        '5'
    } else if d == 6 {
        '6'
    } else if d == 7 {
        '7'
    } else if d == 8 {
        '8'
    } else {
        '9'
    }
}

/// The decimal digits of a natural number, most significant first.
pub open spec fn dec_nat_chars(n: nat) -> Seq<char>
    decreases n,
    via dec_nat_chars_decreases
{
    if n < 10 {
        seq![dec_digit_char(n as int)]
    } else {
        dec_nat_chars(n / 10) + seq![dec_digit_char((n % 10) as int)]
    }
}

#[via_fn]
proof fn dec_nat_chars_decreases(n: nat) {
    if n >= 10 {
        vstd::arithmetic::div_mod::lemma_div_is_strictly_smaller(n as int, 10);
    }
}

/// The decimal rendering of an integer: a minus sign for a negative value,
/// then the digits of its magnitude.
pub open spec fn dec_int_chars(i: int) -> Seq<char> {
    if i < 0 {
        seq!['-'] + dec_nat_chars((-i) as nat)
    } else {
        dec_nat_chars(i as nat)
    }
}

fn digit_str(d: u8) -> (r: &'static str)
    requires
        d < 10,
    ensures
        r@ == seq![dec_digit_char(d as int)],
{
    proof {
        reveal_strlit("0");
        reveal_strlit("1");
        reveal_strlit("2");
        reveal_strlit("3");
        reveal_strlit("4");
        reveal_strlit("5");
        reveal_strlit("6");
        reveal_strlit("7");
        reveal_strlit("8");
        reveal_strlit("9");
    }
    let r: &'static str = if d == 0 {
        "0"
    } else if d == 1 {
        "1"
    } else if d == 2 {
        "2"
    } else if d == 3 {
        "3"
    } else if d == 4 {
        "4"
    } else if d == 5 {
        "5"
    } else if d == 6 {
        "6"
    } else if d == 7 {
        "7"
    } else if d == 8 {
        "8"
    } else {
        "9"
    };
    proof {
        assert(r@ =~= seq![dec_digit_char(d as int)]);
    }
    r
}

fn u8_decimal(n: u8) -> (r: String)
    ensures
        r@ == dec_nat_chars(n as nat),
    decreases n,
{
    if n < 10 {
        digit_str(n).to_owned()
    } else {
        proof {
            vstd::arithmetic::div_mod::lemma_div_is_strictly_smaller(n as int, 10);
        }
        let high = u8_decimal(n / 10);
        high.concat(digit_str(n % 10))
    }
}

/// Renders a signed byte in decimal, as `-2`, `0` or `17` are written.
pub fn i8_decimal(p: i8) -> (r: String)
    ensures
        r@ == dec_int_chars(p as int),
{
    if p >= 0 {
        u8_decimal(p as u8)
    } else {
        proof {
            reveal_strlit("-");
        }
        let m: i16 = -(p as i16);
        let sign: String = "-".to_owned();
        proof {
            assert(sign@ =~= seq!['-']);
        }
        sign.concat(u8_decimal(m as u8).as_str())
    }
}

} // verus!
