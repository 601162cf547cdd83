//! Character classification and small string helpers.
//!
//! Type names, identifiers and rendered type strings are examined character
//! by character throughout the crate.  The Unicode character classes that
//! decide where an identifier starts and ends are taken from the standard
//! library and are only named here, not redefined.

use vstd::prelude::*;
use vstd::string::*;

verus! {

/// Whether `c` belongs to a Unicode letter or number class, as decided by
/// `char::is_alphanumeric`.
pub uninterp spec fn char_alphanumeric(c: char) -> bool;

/// Whether `c` is an uppercase letter, as decided by `char::is_uppercase`.
pub uninterp spec fn char_uppercase(c: char) -> bool;

/// Relies on `char::is_alphanumeric`: true exactly for characters in a
/// Unicode letter or number class, a function of the character alone.
/// On ASCII those classes hold exactly the letters and digits.
#[verifier::external_body]
pub fn is_alphanumeric_char(c: char) -> (r: bool)
    ensures
        r == char_alphanumeric(c),
        (c as u32) < 128 ==> (r <==> (('0' as u32) <= (c as u32) <= ('9' as u32) || ('a' as u32)
            <= (c as u32) <= ('z' as u32) || ('A' as u32) <= (c as u32) <= ('Z' as u32))),
{
    c.is_alphanumeric()
}

/// Relies on `char::is_uppercase`: true exactly for characters in the
/// Unicode uppercase-letter class, a function of the character alone.
/// On ASCII that class holds exactly `A` through `Z`.
#[verifier::external_body]
pub fn is_uppercase_char(c: char) -> (r: bool)
    ensures
        r == char_uppercase(c),
        (c as u32) < 128 ==> (r <==> ('A' as u32) <= (c as u32) <= ('Z' as u32)),
{
    c.is_uppercase()
}

/// The views of a list of strings.
pub open spec fn str_views(v: Seq<String>) -> Seq<Seq<char>> {
    v.map_values(|s: String| s@)
}

/// Character-by-character equality of two string slices.
pub fn str_eq(a: &str, b: &str) -> (r: bool)
    ensures
        r == (a@ == b@),
{
    let alen = a.unicode_len();
    let blen = b.unicode_len();
    if alen != blen {
        return false;
    }
    let mut i: usize = 0;
    while i < alen
        invariant
            alen == a@.len(),
            blen == b@.len(),
            alen == blen,
            i <= alen,
            forall|j: int| 0 <= j < i ==> a@[j] == b@[j],
        decreases alen - i,
    {
        if a.get_char(i) != b.get_char(i) {
            return false;
        }
        i += 1;
    }
    proof {
        assert(a@ =~= b@);
    }
    true
}

/// The characters of `s`, in order, as a vector.
pub fn str_to_chars(s: &str) -> (r: Vec<char>)
    ensures
        r@ == s@,
{
    let n = s.unicode_len();
    let mut r: Vec<char> = Vec::new();
    let mut i: usize = 0;
    while i < n
        invariant
            n == s@.len(),
            i <= n,
            r@ == s@.take(i as int),
        decreases n - i,
    {
        r.push(s.get_char(i));
        proof {
            assert(r@ =~= s@.take(i as int + 1));
        }
        i += 1;
    }
    proof {
        assert(s@.take(n as int) =~= s@);
    }
    r
}

/// The character for one decimal digit.
pub open spec fn digit_char(n: nat) -> char {
    if n == 0 {
        '0'
    } else if n == 1 {
        '1'
    } else if n == 2 {
        '2'
    } else if n == 3 {
        '3'
    } else if n == 4 {
        '4'
    } else if n == 5 {
        '5'
    } else if n == 6 {
        '6'
    } else if n == 7 {
        '7'
    } else if n == 8 {
        '8'
    } else {
        '9'
    }
}

/// The decimal rendering of a number, without sign or padding.
pub open spec fn dec_str(n: nat) -> Seq<char>
    decreases n,
{
    if n < 10 {
        seq![digit_char(n)]
    } else {
        dec_str(n / 10).push(digit_char(n % 10))
    }
}

/// The digit character for a value below ten.
pub fn digit_of(n: usize) -> (r: char)
    requires
        n < 10,
    ensures
        r == digit_char(n as nat),
{
    if n == 0 {
        '0'
    } else if n == 1 {
        '1'
    } else if n == 2 {
        '2'
    } else if n == 3 {
        '3'
    } else if n == 4 {
        '4'
    } else if n == 5 {
        '5'
    } else if n == 6 {
        '6'
    } else if n == 7 {
        '7'
    } else if n == 8 {
        '8'
    } else {
        '9'
    }
}

/// Appends the decimal rendering of `n`.
pub fn push_dec(n: usize, out: &mut Vec<char>)
    ensures
        final(out)@ == old(out)@ + dec_str(n as nat),
    decreases n,
{
    if n >= 10 {
        push_dec(n / 10, out);
    }
    out.push(digit_of(n % 10));
    proof {
        if n >= 10 {
            assert(out@ =~= old(out)@ + dec_str(n as nat));
        } else {
            assert(out@ =~= old(out)@ + dec_str(n as nat));
        }
    }
}

/// `s` with every space removed, the other characters kept in order.
pub open spec fn strip_spaces(s: Seq<char>) -> Seq<char>
    decreases s.len(),
{
    if s.len() == 0 {
        Seq::empty()
    } else if s.last() == ' ' {
        strip_spaces(s.drop_last())
    } else {
        strip_spaces(s.drop_last()).push(s.last())
    }
}

/// The characters of `s` other than spaces, in order.
pub fn strip_spaces_exec(s: &str) -> (r: Vec<char>)
    ensures
        r@ == strip_spaces(s@),
{
    let cs = str_to_chars(s);
    let n = cs.len();
    let mut r: Vec<char> = Vec::new();
    let mut i: usize = 0;
    while i < n
        invariant
            n == cs@.len(),
            cs@ == s@,
            i <= n,
            r@ == strip_spaces(s@.take(i as int)),
        decreases n - i,
    {
        proof {
            assert(s@.take(i as int + 1).drop_last() =~= s@.take(i as int));
            assert(s@.take(i as int + 1).last() == s@[i as int]);
        }
        let c = cs[i];
        if c != ' ' {
            r.push(c);
        }
        i += 1;
    }
    proof {
        assert(s@.take(n as int) =~= s@);
    }
    r
}

/// Relies on `String::from_iter` over `char`: collecting yields the string
/// whose characters are exactly those of the vector, in order.
#[verifier::external_body]
pub fn chars_to_string(v: &Vec<char>) -> (r: String)
    ensures
        r@ == v@,
{
    String::from_iter(v.iter().copied())
}

} // verus!
