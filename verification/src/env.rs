//! Settings read from environment variables.

use vstd::prelude::*;
use vstd::string::*;

verus! {

/// An environment variable that cannot be used.
#[derive(Debug, PartialEq, Eq)]
pub enum EnvError {
    NotUnicode { name: &'static str },
    Invalid { name: &'static str, value: String, reason: String },
}

/// The text of an environment error.
pub open spec fn env_error_message(error: EnvError) -> Seq<char> {
    match error {
        EnvError::NotUnicode { name } => "environment variable "@ + name@ + " is not valid Unicode"@,
        EnvError::Invalid { name, value, reason } => "environment variable "@ + name@
            + " has invalid value '"@ + value@ + "': "@ + reason@,
    }
}

impl EnvError {
    /// The text of this error.
    pub fn message(&self) -> (r: String)
        ensures
            r@ == env_error_message(*self),
    {
        match self {
            EnvError::NotUnicode { name } => {
                let mut r = String::from_str("environment variable ");
                r.append(name);
                r.append(" is not valid Unicode");
                r
            },
            EnvError::Invalid { name, value, reason } => {
                let mut r = String::from_str("environment variable ");
                r.append(name);
                r.append(" has invalid value '");
                r.append(value.as_str());
                r.append("': ");
                r.append(reason.as_str());
                r
            },
        }
    }
}

/// What reading an environment variable found.
#[derive(Debug, PartialEq, Eq)]
pub enum EnvLookup {
    Present(String),
    NotPresent,
    NotUnicode,
}

/// The value of a variable, `None` when it is unset, or an error when it is
/// not valid Unicode.
pub fn present_value(name: &'static str, lookup: EnvLookup) -> (r: Result<Option<String>, EnvError>)
    ensures
        match lookup {
            EnvLookup::Present(v) => r matches Ok(Some(s)) && s@ == v@,
            EnvLookup::NotPresent => r matches Ok(None),
            EnvLookup::NotUnicode => r == Err::<Option<String>, EnvError>(EnvError::NotUnicode { name }),
        },
{
    match lookup {
        EnvLookup::Present(v) => Ok(Some(v)),
        EnvLookup::NotPresent => Ok(None),
        EnvLookup::NotUnicode => Err(EnvError::NotUnicode { name }),
    }
}

/// A string setting: the variable's value, or `default` when it is unset.
pub fn string_or(name: &'static str, lookup: EnvLookup, default: &str) -> (r: Result<String, EnvError>)
    ensures
        match lookup {
            EnvLookup::Present(v) => r matches Ok(s) && s@ == v@,
            EnvLookup::NotPresent => r matches Ok(s) && s@ == default@,
            EnvLookup::NotUnicode => r == Err::<String, EnvError>(EnvError::NotUnicode { name }),
        },
{
    match present_value(name, lookup)? {
        Some(v) => Ok(v),
        None => Ok(String::from_str(default)),
    }
}

} // verus!
