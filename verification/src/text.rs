//! Text helpers for the search filter and for log lines: case-insensitive
//! substring matching and decimal rendering of counters.

use vstd::prelude::*;

verus! {

/// True when `needle` occurs as a contiguous run of characters inside `hay`.
pub open spec fn is_substring(hay: Seq<char>, needle: Seq<char>) -> bool {
    exists|i: int|
        0 <= i && i + needle.len() <= hay.len() && #[trigger] hay.subrange(
            i,
            i + needle.len(),
        ) == needle
}

/// The lowercase form of a character sequence, as `str::to_lowercase`
/// computes it.
pub uninterp spec fn lower_of(s: Seq<char>) -> Seq<char>;

/// A name matches the search text when the lowercased search text occurs
/// inside the lowercased name; an empty search text matches every name.
pub open spec fn matches_search(name: Seq<char>, search: Seq<char>) -> bool {
    search.len() == 0 || is_substring(lower_of(name), lower_of(search))
}

/// Relies on `str::to_lowercase`: the result is the Unicode lowercase form,
/// a function of the characters alone, and an empty string stays empty.
#[verifier::external_body]
fn to_lower(s: &str) -> (r: String)
    ensures
        r@ == lower_of(s@),
        s@.len() == 0 ==> r@.len() == 0,
{
    s.to_lowercase()
}

/// Relies on `str::contains` with a `&str` pattern: substring containment.
#[verifier::external_body]
fn contains_str(hay: &str, needle: &str) -> (r: bool)
    ensures
        r == is_substring(hay@, needle@),
{
    hay.contains(needle)
}

/// Decides whether `name` passes the case-insensitive search filter.
pub fn name_matches(name: &String, search: &String) -> (r: bool)
    ensures
        r == matches_search(name@, search@),
{
    let lname = to_lower(name.as_str());
    let lsearch = to_lower(search.as_str());
    let r = contains_str(lname.as_str(), lsearch.as_str());
    proof {
        if search@.len() == 0 {
            assert(lsearch@ =~= Seq::<char>::empty());
            assert(lname@.subrange(0, 0 + lsearch@.len() as int) =~= lsearch@);
            assert(is_substring(lname@, lsearch@));
        }
    }
    r
}

/// Relies on `String::push`: appends one character at the end.
#[verifier::external_body]
pub(crate) fn push_char(s: &mut String, c: char)
    ensures
        final(s)@ == old(s)@.push(c),
{
    s.push(c);
}

/// Relies on `String::pop`: removes the last character, if there is one.
#[verifier::external_body]
pub(crate) fn pop_char(s: &mut String)
    ensures
        final(s)@ == if old(s)@.len() == 0 {
            old(s)@
        } else {
            old(s)@.drop_last()
        },
{
    s.pop();
}

/// The decimal digit character for `d`.
pub open spec fn digit_char(d: nat) -> char
    recommends
        d < 10,
{
    ((48 + d) as u8) as char
}

/// The decimal rendering of `n`, most significant digit first.
pub open spec fn spec_dec(n: nat) -> Seq<char>
    decreases n,
{
    if n < 10 {
        seq![digit_char(n)]
    } else {
        spec_dec(n / 10).push(digit_char(n % 10))
    }
}

/// Renders `n` in decimal.
pub fn usize_to_dec(n: usize) -> (s: String)
    ensures
        s@ == spec_dec(n as nat),
    decreases n,
{
    if n < 10 {
        let mut s = String::new();
        let b: u8 = 48 + (n as u8);
        push_char(&mut s, b as char);
        proof {
            assert(s@ =~= seq![digit_char(n as nat)]);
        }
        s
    } else {
        proof {
            assert(n / 10 < n) by (nonlinear_arith)
                requires
                    n >= 10,
            ;
        }
        let mut s = usize_to_dec(n / 10);
        let b: u8 = 48 + ((n % 10) as u8);
        push_char(&mut s, b as char);
        s
    }
}

} // verus!
