//! Random alphanumeric codes: grant codes, bearer keys and client secrets.
use rand::Rng;
use vstd::prelude::*;

verus! {

/// Number of characters in the code alphabet `[a-zA-Z0-9]`.
pub const ALPHABET_LEN: usize = 62;

/// A character that may appear in a code.
pub open spec fn is_code_char(c: char) -> bool {
    ('a' <= c && c <= 'z') || ('A' <= c && c <= 'Z') || ('0' <= c && c <= '9')
}

/// Every character of `s` is a code character.
pub open spec fn is_code(s: Seq<char>) -> bool {
    forall|i: int| 0 <= i < s.len() ==> is_code_char(#[trigger] s[i])
}

/// The `i`-th character of the alphabet: lower case, then upper case, then digits.
pub open spec fn alphabet_char(i: int) -> char {
    if i < 26 {
        ('a' as int + i) as char
    } else if i < 52 {
        ('A' as int + (i - 26)) as char
    } else {
        ('0' as int + (i - 52)) as char
    }
}

/// The `i`-th character of the code alphabet.
pub fn code_char(i: usize) -> (c: char)
    requires
        i < ALPHABET_LEN,
    ensures
        c == alphabet_char(i as int),
        is_code_char(c),
{
    if i < 26 {
        ((97 + i) as u8) as char
    } else if i < 52 {
        ((65 + (i - 26)) as u8) as char
    } else {
        ((48 + (i - 52)) as u8) as char
    }
}

/// Relies on rand's `thread_rng().gen::<usize>()`: a value drawn from the
/// thread-local generator. Nothing is known of it.
#[verifier::external_body]
pub(crate) fn random_usize() -> usize {
    rand::thread_rng().gen::<usize>()
}

/// Relies on std's `String: FromIterator<char>`: the string holds exactly the
/// given characters, in order.
#[verifier::external_body]
pub(crate) fn string_from_chars(v: &Vec<char>) -> (r: String)
    ensures
        r@ == v@,
{
    v.iter().collect::<String>()
}

/// A fresh random code of `len` characters drawn from `[a-zA-Z0-9]`.
pub fn generate_random_code(len: usize) -> (r: String)
    ensures
        r@.len() == len,
        is_code(r@),
{
    let mut chars: Vec<char> = Vec::with_capacity(len);
    let mut i: usize = 0;
    while i < len
        invariant
            i <= len,
            chars@.len() == i,
            is_code(chars@),
        decreases len - i,
    {
        let next = code_char(random_usize() % ALPHABET_LEN);
        chars.push(next);
        i = i + 1;
    }
    string_from_chars(&chars)
}

} // verus!
