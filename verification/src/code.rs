//! Short codes: fixed-length strings over the 62 ASCII letters and digits.

use rand::Rng;
use vstd::prelude::*;

verus! {

/// Whether `c` is one of the 62 symbols a short code is made of.
pub open spec fn is_code_symbol(c: char) -> bool {
    ('0' <= c && c <= '9') || ('A' <= c && c <= 'Z') || ('a' <= c && c <= 'z')
}

/// Whether `s` is a short code of `len` symbols.
pub open spec fn is_short_code(s: Seq<char>, len: nat) -> bool {
    s.len() == len && forall|i: int| 0 <= i < s.len() ==> is_code_symbol(#[trigger] s[i])
}

/// One draw of `rand::Rng::sample` with `rand::distributions::Alphanumeric`
/// on `rand::thread_rng()`. Trusted: the byte that comes back is an ASCII
/// letter or digit. Nothing is claimed about which one.
#[verifier::external_body]
fn sample_symbol() -> (c: char)
    ensures
        is_code_symbol(c),
{
    let b: u8 = rand::thread_rng().sample(rand::distributions::Alphanumeric);
    char::from(b)
}

/// `String::push`. Trusted: the character is appended at the end and the rest
/// of the string stays as it was.
#[verifier::external_body]
fn push_char(s: &mut String, c: char)
    ensures
        final(s)@ == old(s)@.push(c),
{
    s.push(c)
}

/// Generates a fresh random short code of `len` symbols.
///
/// Codes are not unique by construction: the caller has to check a code
/// against the store before binding it.
pub fn generate(len: usize) -> (code: String)
    ensures
        is_short_code(code@, len as nat),
{
    let mut code = String::new();
    let mut i: usize = 0;
    while i < len
        invariant
            i <= len,
            is_short_code(code@, i as nat),
        decreases len - i,
    {
        let c = sample_symbol();
        push_char(&mut code, c);
        i += 1;
    }
    code
}

} // verus!
