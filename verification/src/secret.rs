//! Passwords are held in a `secrecy::SecretString`, so that they are wiped
//! from memory when dropped and cannot be printed by accident.

use secrecy::ExposeSecret;
use secrecy::SecretString;
use vstd::prelude::*;

verus! {

/// A password, kept inside a `secrecy::SecretString`. What it holds is
/// reached through [`password_text`] alone.
#[verifier::external_body]
pub struct Password {
    secret: SecretString,
}

/// The characters of a password.
pub uninterp spec fn password_text(password: Password) -> Seq<char>;

/// Moves `text` into a `SecretString` with `SecretString::from`. Taken on
/// trust: the secret holds the characters of `text`, unchanged.
#[verifier::external_body]
fn seal(text: String) -> (password: Password)
    ensures
        password_text(password) == text@,
{
    Password { secret: SecretString::from(text) }
}

/// Borrows the text with `ExposeSecret::expose_secret`. Taken on trust: the
/// reference leads to the characters that the secret holds, unchanged.
#[verifier::external_body]
pub(crate) fn expose(password: &Password) -> (text: &str)
    ensures
        text@ == password_text(*password),
{
    password.secret.expose_secret()
}

impl View for Password {
    type V = Seq<char>;

    open spec fn view(&self) -> Seq<char> {
        password_text(*self)
    }
}

impl Password {
    /// Takes `text` as a password.
    pub fn new(text: String) -> (password: Password)
        ensures
            password@ == text@,
    {
        seal(text)
    }
}

} // verus!
