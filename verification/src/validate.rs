//! Validation of the name and of the password.

use crate::number::is_digit;
use crate::text::{has_whitespace, StringState};
use vstd::prelude::*;

verus! {

/// Why a name is refused.
#[derive(Clone, Copy, Debug, PartialEq, Eq, Structural)]
pub enum NameError {
    /// The name is empty.
    Empty,
    /// The name holds whitespace.
    HasWhitespace,
    /// The name begins with a decimal digit.
    StartsWithDigit,
}

/// Why a password is refused.
#[derive(Clone, Copy, Debug, PartialEq, Eq, Structural)]
pub enum PasswordError {
    /// The password is empty.
    Empty,
    /// The password holds whitespace.
    HasWhitespace,
}

/// The fault of the name `name`, if it has one.
pub open spec fn name_error_spec(name: Seq<char>) -> Option<NameError> {
    match StringState::of(name) {
        StringState::Empty => Some(NameError::Empty),
        StringState::HasWs => Some(NameError::HasWhitespace),
        StringState::Valid => if is_digit(name[0]) {
            Some(NameError::StartsWithDigit)
        } else {
            None
        },
    }
}

/// The fault of the password `password`, if it has one. Where passwords
/// cannot be customized none is ever found.
pub open spec fn password_error_spec(password: Seq<char>, customizable: bool) -> Option<
    PasswordError,
> {
    if !customizable {
        None
    } else {
        match StringState::of(password) {
            StringState::Empty => Some(PasswordError::Empty),
            StringState::HasWs => Some(PasswordError::HasWhitespace),
            StringState::Valid => None,
        }
    }
}

impl NameError {
    /// The text shown for this fault.
    pub open spec fn message_spec(self) -> Seq<char> {
        match self {
            NameError::Empty => "Name cannot be empty."@,
            NameError::HasWhitespace => "Name cannot contain whitespace."@,
            NameError::StartsWithDigit => "Name cannot start with a number."@,
        }
    }

    /// The text shown for this fault.
    pub fn message(&self) -> (text: &'static str)
        ensures
            text@ == self.message_spec(),
    {
        match self {
            NameError::Empty => "Name cannot be empty.",
            NameError::HasWhitespace => "Name cannot contain whitespace.",
            NameError::StartsWithDigit => "Name cannot start with a number.",
        }
    }
}

impl PasswordError {
    /// The text shown for this fault.
    pub open spec fn message_spec(self) -> Seq<char> {
        match self {
            PasswordError::Empty => "Password cannot be empty."@,
            PasswordError::HasWhitespace => "Password cannot contain whitespace."@,
        }
    }

    /// The text shown for this fault.
    pub fn message(&self) -> (text: &'static str)
        ensures
            text@ == self.message_spec(),
    {
        match self {
            PasswordError::Empty => "Password cannot be empty.",
            PasswordError::HasWhitespace => "Password cannot contain whitespace.",
        }
    }
}

/// Validates a name: it must not be empty, hold whitespace or begin with a
/// decimal digit.
pub fn validate_name(name: &str) -> (fault: Option<NameError>)
    ensures
        fault == name_error_spec(name@),
        (fault matches Some(NameError::Empty)) <==> name@.len() == 0,
        (fault matches Some(NameError::HasWhitespace)) <==> name@.len() > 0 && has_whitespace(
            name@,
        ),
        (fault matches Some(NameError::StartsWithDigit)) <==> name@.len() > 0 && !has_whitespace(
            name@,
        ) && is_digit(name@[0]),
        fault is None <==> name@.len() > 0 && !has_whitespace(name@) && !is_digit(name@[0]),
{
    match StringState::get(name) {
        StringState::Empty => Some(NameError::Empty),
        StringState::HasWs => Some(NameError::HasWhitespace),
        StringState::Valid => {
            let first = name.get_char(0);
            if '0' <= first && first <= '9' {
                Some(NameError::StartsWithDigit)
            } else {
                None
            }
        },
    }
}

/// Validates a password, which must not be empty or hold whitespace. Where
/// passwords cannot be customized the password is not looked at.
pub fn validate_password(password: &str, customizable: bool) -> (fault: Option<PasswordError>)
    ensures
        fault == password_error_spec(password@, customizable),
        !customizable ==> fault is None,
        (fault matches Some(PasswordError::Empty)) <==> customizable && password@.len() == 0,
        (fault matches Some(PasswordError::HasWhitespace)) <==> customizable && password@.len() > 0
            && has_whitespace(password@),
        fault is None <==> !customizable || (password@.len() > 0 && !has_whitespace(password@)),
{
    if !customizable {
        None
    } else {
        match StringState::get(password) {
            StringState::Empty => Some(PasswordError::Empty),
            StringState::HasWs => Some(PasswordError::HasWhitespace),
            StringState::Valid => None,
        }
    }
}

} // verus!
