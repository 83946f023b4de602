//! The settings of the service, fixed when the process starts.

use vstd::prelude::*;

verus! {

/// What the flows need to know of their surroundings. It is made once and
/// handed to each flow by reference.
#[derive(Debug, Clone, PartialEq, Eq)]
pub struct Config {
    /// The key that session tokens are signed with.
    pub jwt_secret: String,
    /// What a verification link starts with.
    pub verification_base_url: String,
    /// What a reset link starts with.
    pub reset_password_base_url: String,
    /// Whether a new account has to prove its address.
    pub email_verification_enabled: bool,
}

/// The letter as a lower-case one, where it is an ASCII capital.
pub open spec fn ascii_lower(c: char) -> char {
    if 'A' <= c <= 'Z' {
        ((c as u8) + 32) as char
    } else {
        c
    }
}

/// The text reads `true`, in capitals or not.
pub open spec fn says_true(text: Seq<char>) -> bool {
    text.map_values(|c: char| ascii_lower(c)) == "true"@
}

/// Whether a setting switches its feature on: it does where it is present
/// and reads `true`, whatever the case of its letters.
pub fn flag_enabled(value: Option<&str>) -> (enabled: bool)
    ensures
        enabled == (value matches Some(text) && says_true(text@)),
{
    match value {
        None => false,
        Some(text) => {
            proof {
                reveal_strlit("true");
            }
            let n: usize = text.unicode_len();
            if n != 4 {
                assert(text@.map_values(|c: char| ascii_lower(c)).len() == n);
                false
            } else {
                let a: char = text.get_char(0);
                let b: char = text.get_char(1);
                let c: char = text.get_char(2);
                let d: char = text.get_char(3);
                let r: bool = (a == 't' || a == 'T') && (b == 'r' || b == 'R') && (c == 'u' || c
                    == 'U') && (d == 'e' || d == 'E');
                proof {
                    let low = text@.map_values(|c: char| ascii_lower(c));
                    assert(low[0] == ascii_lower(a));
                    assert(low[1] == ascii_lower(b));
                    assert(low[2] == ascii_lower(c));
                    assert(low[3] == ascii_lower(d));
                    if r {
                        assert(low =~= "true"@);
                    }
                }
                r
            }
        },
    }
}

} // verus!
