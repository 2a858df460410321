//! The password policy for accounts: 8 to 128 bytes, with at least one
//! letter and at least one digit.
use vstd::prelude::*;
use vstd::string::*;

verus! {

/// Whether `char::is_alphabetic` holds of `c`.
pub uninterp spec fn alphabetic(c: char) -> bool;

/// Whether `char::is_numeric` holds of `c`.
pub uninterp spec fn numeric(c: char) -> bool;

/// Relies on `char::is_alphabetic`: the Unicode Alphabetic property, which
/// depends on the character alone.
#[verifier::external_body]
fn is_alphabetic(c: char) -> (r: bool)
    ensures
        r == alphabetic(c),
{
    c.is_alphabetic()
}

/// Relies on `char::is_numeric`: the Unicode numeric categories, which
/// depend on the character alone.
#[verifier::external_body]
fn is_numeric(c: char) -> (r: bool)
    ensures
        r == numeric(c),
{
    c.is_numeric()
}

/// Why a password was refused.
#[derive(Clone, Copy, Debug, PartialEq, Eq, Structural)]
pub enum PasswordError {
    /// Fewer than 8 bytes.
    TooShort,
    /// Fewer than 8 bytes, for the first administrator account.
    AdminTooShort,
    /// More than 128 bytes.
    TooLong,
    /// No letter.
    NoLetter,
    /// No digit.
    NoDigit,
}

/// The policy's verdict on a password of `byte_len` bytes and characters
/// `chars`; a short one is refused with `short`.
pub open spec fn password_verdict(byte_len: nat, chars: Seq<char>, short: PasswordError) -> Result<
    (),
    PasswordError,
> {
    if byte_len < 8 {
        Err(short)
    } else if byte_len > 128 {
        Err(PasswordError::TooLong)
    } else if !(exists|i: int| 0 <= i < chars.len() && alphabetic(#[trigger] chars[i])) {
        Err(PasswordError::NoLetter)
    } else if !(exists|i: int| 0 <= i < chars.len() && numeric(#[trigger] chars[i])) {
        Err(PasswordError::NoDigit)
    } else {
        Ok(())
    }
}

fn has_letter(s: &str) -> (r: bool)
    ensures
        r == exists|i: int| 0 <= i < s@.len() && alphabetic(#[trigger] s@[i]),
{
    let n = s.unicode_len();
    let mut i: usize = 0;
    while i < n
        invariant
            n == s@.len(),
            i <= n,
            forall|k: int| 0 <= k < i ==> !alphabetic(#[trigger] s@[k]),
        decreases n - i,
    {
        if is_alphabetic(s.get_char(i)) {
            return true;
        }
        i = i + 1;
    }
    false
}

fn has_digit(s: &str) -> (r: bool)
    ensures
        r == exists|i: int| 0 <= i < s@.len() && numeric(#[trigger] s@[i]),
{
    let n = s.unicode_len();
    let mut i: usize = 0;
    while i < n
        invariant
            n == s@.len(),
            i <= n,
            forall|k: int| 0 <= k < i ==> !numeric(#[trigger] s@[k]),
        decreases n - i,
    {
        if is_numeric(s.get_char(i)) {
            return true;
        }
        i = i + 1;
    }
    false
}

/// The policy's verdict on a password of `byte_len` bytes, given whether it
/// holds a letter and a digit; a short one is refused with `short`.
pub fn password_rules(byte_len: usize, has_letter: bool, has_digit: bool, short: PasswordError) -> (r: Result<
    (),
    PasswordError,
>)
    ensures
        r == (if byte_len < 8 {
            Err(short)
        } else if byte_len > 128 {
            Err(PasswordError::TooLong)
        } else if !has_letter {
            Err(PasswordError::NoLetter)
        } else if !has_digit {
            Err(PasswordError::NoDigit)
        } else {
            Ok(())
        }),
{
    if byte_len < 8 {
        Err(short)
    } else if byte_len > 128 {
        Err(PasswordError::TooLong)
    } else if !has_letter {
        Err(PasswordError::NoLetter)
    } else if !has_digit {
        Err(PasswordError::NoDigit)
    } else {
        Ok(())
    }
}

fn check_password(password: &str, short: PasswordError) -> (r: Result<(), PasswordError>)
    ensures
        r == password_verdict(password.spec_bytes().len(), password@, short),
{
    let len = password.as_bytes().len();
    password_rules(len, has_letter(password), has_digit(password), short)
}

/// Checks a new account's password against the policy.
pub fn validate_password(password: &str) -> (r: Result<(), PasswordError>)
    ensures
        r == password_verdict(password.spec_bytes().len(), password@, PasswordError::TooShort),
{
    check_password(password, PasswordError::TooShort)
}

/// Checks the first administrator's password against the policy.
pub fn validate_admin_password(password: &str) -> (r: Result<(), PasswordError>)
    ensures
        r == password_verdict(password.spec_bytes().len(), password@, PasswordError::AdminTooShort),
{
    check_password(password, PasswordError::AdminTooShort)
}

} // verus!
