//! Random secrets: alphanumeric tokens and codes of a chosen length, and the
//! handle of a challenge.

use vstd::prelude::*;

verus! {

/// An ASCII letter or digit.
pub open spec fn is_alphanumeric(c: char) -> bool {
    ||| '0' <= c <= '9'
    ||| 'a' <= c <= 'z'
    ||| 'A' <= c <= 'Z'
}

/// A token or code: exactly `length` characters, each a letter or a digit.
pub open spec fn is_secret(s: Seq<char>, length: nat) -> bool {
    &&& s.len() == length
    &&& forall|i: int| 0 <= i < s.len() ==> is_alphanumeric(#[trigger] s[i])
}

/// A digit or one of the letters `a` to `f`.
pub open spec fn is_lower_hex(c: char) -> bool {
    ||| '0' <= c <= '9'
    ||| 'a' <= c <= 'f'
}

/// Where the groups of a handle are joined.
pub open spec fn is_hyphen_position(i: int) -> bool {
    i == 8 || i == 13 || i == 18 || i == 23
}

/// The shape of a handle: 36 characters in groups of 8, 4, 4, 4 and 12
/// lower-case hexadecimal digits, joined by hyphens.
pub open spec fn is_handle(s: Seq<char>) -> bool {
    &&& s.len() == 36
    &&& forall|i: int|
        0 <= i < 36 ==> if is_hyphen_position(i) {
            #[trigger] s[i] == '-'
        } else {
            is_lower_hex(s[i])
        }
}

/// The length of a verification token and of a reset token.
pub const TOKEN_LENGTH: usize = 30;

/// The length of a code of the second factor.
pub const CODE_LENGTH: usize = 6;

/// Draws one byte with `rand::Rng::sample` from `rand::thread_rng()` under
/// the distribution `rand::distributions::Alphanumeric`. The byte is one of
/// `A`-`Z`, `a`-`z`, `0`-`9`; which one is chance.
#[verifier::external_body]
fn sample_alphanumeric() -> (b: u8)
    ensures
        is_alphanumeric(b as char),
{
    rand::Rng::sample(&mut rand::thread_rng(), rand::distributions::Alphanumeric)
}

/// Makes a version 4 identifier with `uuid::Uuid::new_v4` and writes it out
/// with `to_string`: the hyphenated lower-case form. Which digits it holds
/// is chance.
#[verifier::external_body]
fn random_handle() -> (text: String)
    ensures
        is_handle(text@),
{
    uuid::Uuid::new_v4().to_string()
}

/// Appends one character with `String::push`.
#[verifier::external_body]
pub(crate) fn push_char(text: &mut String, c: char)
    ensures
        final(text)@ == old(text)@.push(c),
{
    text.push(c)
}

/// A random string of exactly `length` letters and digits.
pub fn generate(length: usize) -> (secret: String)
    ensures
        is_secret(secret@, length as nat),
{
    let mut secret = String::new();
    let mut i: usize = 0;
    while i < length
        invariant
            i <= length,
            is_secret(secret@, i as nat),
        decreases length - i,
    {
        let b: u8 = sample_alphanumeric();
        push_char(&mut secret, b as char);
        i = i + 1;
    }
    secret
}

/// A fresh code of the second factor: six letters and digits.
pub fn generate_2fa_code() -> (code: String)
    ensures
        is_secret(code@, CODE_LENGTH as nat),
{
    generate(CODE_LENGTH)
}

/// A fresh token for a verification or reset link: thirty letters and
/// digits.
pub fn generate_token() -> (token: String)
    ensures
        is_secret(token@, TOKEN_LENGTH as nat),
{
    generate(TOKEN_LENGTH)
}

/// A fresh handle for a challenge.
pub fn generate_temp_token() -> (token: String)
    ensures
        is_handle(token@),
{
    random_handle()
}

} // verus!
