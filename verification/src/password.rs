//! Credential generation: random alphanumeric passwords for database
//! roles, drawn from the operating system's entropy source.

use vstd::prelude::*;

use rand::Rng;

use crate::strutil::push_char;

verus! {

/// Password length used when none is configured.
pub const DEFAULT_PASSWORD_LENGTH: usize = 30;

/// Whether a character may appear in a generated password: an ASCII
/// letter or digit.
pub open spec fn is_password_char(c: char) -> bool {
    ('a' <= c && c <= 'z') || ('A' <= c && c <= 'Z') || ('0' <= c && c <= '9')
}

/// One character drawn uniformly from the ASCII letters and digits.
///
/// Relies on rand's `Alphanumeric` distribution, which samples a byte
/// from `A-Z`, `a-z` and `0-9`, and on `OsRng`, the operating system's
/// cryptographically secure generator. Nothing is assumed about which
/// character comes back, only that it is alphanumeric; the process
/// aborts if the operating system's generator fails.
#[verifier::external_body]
fn sample_password_char() -> (c: char)
    ensures
        is_password_char(c),
{
    let mut rng = rand::rngs::OsRng;
    char::from(rng.sample(rand::distributions::Alphanumeric))
}

/// Generate a random password of the given length: every character is an
/// ASCII letter or digit, drawn from a cryptographically secure source.
pub fn random_password(length: usize) -> (password: String)
    ensures
        password@.len() == length,
        forall|i: int| 0 <= i < password@.len() ==> is_password_char(#[trigger] password@[i]),
{
    let mut password = String::new();
    let mut i: usize = 0;
    while i < length
        invariant
            i <= length,
            password@.len() == i,
            forall|j: int| 0 <= j < i ==> is_password_char(#[trigger] password@[j]),
        decreases length - i,
    {
        let c = sample_password_char();
        push_char(&mut password, c);
        i = i + 1;
    }
    password
}

} // verus!
