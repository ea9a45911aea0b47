//! Character classes and string comparison, as the validators and the user
//! lookup need them.

use vstd::prelude::*;
use vstd::string::StringExecFns;

verus! {

/// Whether `c` is one of `a` to `z`.
pub open spec fn is_lower(c: char) -> bool {
    'a' <= c && c <= 'z'
}

/// Whether `c` is one of `A` to `Z`.
pub open spec fn is_upper(c: char) -> bool {
    'A' <= c && c <= 'Z'
}

/// Whether `c` is one of `0` to `9`.
pub open spec fn is_digit(c: char) -> bool {
    '0' <= c && c <= '9'
}

/// Whether Unicode counts `c` as a letter or a number.
pub uninterp spec fn unicode_alphanumeric(c: char) -> bool;

/// The Unicode lower-case form of a text.
pub uninterp spec fn lowercased(text: Seq<char>) -> Seq<char>;

/// `c` with an upper-case ASCII letter replaced by its lower-case form.
pub open spec fn fold_ascii(c: char) -> char {
    if is_upper(c) {
        ((c as u8) + 32) as char
    } else {
        c
    }
}

/// Whether two texts are equal once ASCII letters are compared without case.
pub open spec fn same_ignoring_ascii_case(a: Seq<char>, b: Seq<char>) -> bool {
    &&& a.len() == b.len()
    &&& forall|i: int| 0 <= i < a.len() ==> fold_ascii(#[trigger] a[i]) == fold_ascii(b[i])
}

/// Whether some character of `s` satisfies `p`.
pub open spec fn some_char(s: Seq<char>, p: spec_fn(char) -> bool) -> bool {
    exists|i: int| 0 <= i < s.len() && p(#[trigger] s[i])
}

/// Adding a character at the end adds what that character satisfies, and nothing else.
pub proof fn some_char_push(s: Seq<char>, c: char, p: spec_fn(char) -> bool)
    ensures
        some_char(s.push(c), p) == (some_char(s, p) || p(c)),
{
    let t = s.push(c);
    if some_char(s, p) {
        let i = choose|i: int| 0 <= i < s.len() && p(#[trigger] s[i]);
        assert(t[i] == s[i]);
    }
    if p(c) {
        assert(t[s.len() as int] == c);
    }
    if some_char(t, p) {
        let i = choose|i: int| 0 <= i < t.len() && p(#[trigger] t[i]);
        if i < s.len() {
            assert(s[i] == t[i]);
        }
    }
}

pub fn is_ascii_lowercase(c: char) -> (b: bool)
    ensures
        b == is_lower(c),
{
    'a' <= c && c <= 'z'
}

pub fn is_ascii_uppercase(c: char) -> (b: bool)
    ensures
        b == is_upper(c),
{
    'A' <= c && c <= 'Z'
}

pub fn is_ascii_digit(c: char) -> (b: bool)
    ensures
        b == is_digit(c),
{
    '0' <= c && c <= '9'
}

/// `char::is_alphanumeric` of the standard library: whether the character has
/// the Unicode property Alphabetic or is in one of the number categories. The
/// answer depends on the character alone; nothing is claimed of which
/// characters those are.
#[verifier::external_body]
pub(crate) fn is_alphanumeric(c: char) -> (b: bool)
    ensures
        b == unicode_alphanumeric(c),
{
    c.is_alphanumeric()
}

/// `str::to_lowercase` of the standard library: the text with each character
/// replaced by its Unicode lower-case mapping. The result depends on the text
/// alone.
#[verifier::external_body]
pub(crate) fn to_lowercase(text: &str) -> (lower: String)
    ensures
        lower@ == lowercased(text@),
{
    text.to_lowercase()
}

/// The lower-case form of an upper-case ASCII letter, and any other character
/// unchanged.
pub fn ascii_lower(c: char) -> (r: char)
    ensures
        r == fold_ascii(c),
{
    if 'A' <= c && c <= 'Z' {
        let b: u8 = c as u8;
        (b + 32) as char
    } else {
        c
    }
}

/// Whether two strings hold the same characters.
pub fn same_text(a: &str, b: &str) -> (r: bool)
    ensures
        r == (a@ == b@),
{
    let u = chars_of(a);
    let v = chars_of(b);
    if u.len() != v.len() {
        return false;
    }
    let mut i: usize = 0;
    while i < u.len()
        invariant
            u@ == a@,
            v@ == b@,
            u.len() == v.len(),
            i <= u.len(),
            forall|j: int| 0 <= j < i ==> u@[j] == v@[j],
        decreases u.len() - i,
    {
        if u[i] != v[i] {
            return false;
        }
        i += 1;
    }
    assert(u@ =~= v@);
    true
}

/// Whether two strings hold the same characters once ASCII letters are
/// compared without case.
pub fn same_text_ignoring_ascii_case(a: &str, b: &str) -> (r: bool)
    ensures
        r == same_ignoring_ascii_case(a@, b@),
{
    let u = chars_of(a);
    let v = chars_of(b);
    if u.len() != v.len() {
        return false;
    }
    let mut i: usize = 0;
    while i < u.len()
        invariant
            u@ == a@,
            v@ == b@,
            u.len() == v.len(),
            i <= u.len(),
            forall|j: int| 0 <= j < i ==> fold_ascii(#[trigger] u@[j]) == fold_ascii(v@[j]),
        decreases u.len() - i,
    {
        if ascii_lower(u[i]) != ascii_lower(v[i]) {
            return false;
        }
        i += 1;
    }
    true
}

/// The characters of `s`, in order.
pub fn chars_of(s: &str) -> (v: Vec<char>)
    ensures
        v@ == s@,
{
    let mut v: Vec<char> = Vec::new();
    for c in it: s.chars()
        invariant
            it.seq() == s@,
            v@ == it.history(),
    {
        v.push(c);
    }
    v
}

/// `a` followed by `b`, as a new string.
pub fn join(a: &str, b: &str) -> (r: String)
    ensures
        r@ == a@ + b@,
{
    String::from_str(a).concat(b)
}

} // verus!
