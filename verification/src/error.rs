//! Why a set of options was turned down.

use crate::unit::Unit;
use vstd::prelude::*;

verus! {

/// The two families of error a caller can be given.
#[derive(Clone, Copy, Debug, PartialEq, Eq, Structural)]
pub enum ErrorKind {
    /// The formatter was asked for in a way that cannot make one.
    Type,
    /// An option has a value that is not accepted, or two options do not go
    /// together.
    Range,
}

/// Why no formatter was made.
#[derive(Clone, Copy, Debug, PartialEq, Eq, Structural)]
pub enum Error {
    /// The constructor was called as a plain function.
    MissingNewTarget,
    /// The numbering system is not written as one.
    InvalidNumberingSystem,
    /// A style names no style.
    InvalidStyle,
    /// A display names no display.
    InvalidDisplay,
    /// The unit does not accept the style given for it.
    StyleNotAllowed(Unit),
    /// The styles and displays of the units do not go together.
    IncompatibleOptions,
    /// The number of fractional digits is below 0 or above 9.
    FractionalDigitsOutOfRange,
}

impl Error {
    /// The family of the error: only a call without a new target is a type
    /// error.
    pub open spec fn spec_kind(self) -> ErrorKind {
        if self == Error::MissingNewTarget {
            ErrorKind::Type
        } else {
            ErrorKind::Range
        }
    }

    /// The family of the error.
    #[verifier::when_used_as_spec(spec_kind)]
    pub fn kind(self) -> (kind: ErrorKind)
        ensures
            kind == self.spec_kind(),
    {
        match self {
            Error::MissingNewTarget => ErrorKind::Type,
            _ => ErrorKind::Range,
        }
    }

    /// What the error says, in words.
    pub open spec fn message_text(self) -> Seq<char> {
        match self {
            Error::MissingNewTarget => "cannot call `Intl.DurationFormat` constructor without `new`"@,
            Error::InvalidNumberingSystem => "provided string was not a valid numbering system"@,
            Error::InvalidStyle => "provided string was not a valid style option"@,
            Error::InvalidDisplay => "provided string was not a valid display option"@,
            Error::StyleNotAllowed(unit) => "Invalid style value for unit: "@ + unit.name(),
            Error::IncompatibleOptions => "incompatible options provided"@,
            Error::FractionalDigitsOutOfRange => "fractionalDigits must be between 0 and 9"@,
        }
    }

    /// What the error says, in words.
    pub fn message(self) -> (text: String)
        ensures
            text@ == self.message_text(),
    {
        match self {
            Error::MissingNewTarget => String::from_str(
                "cannot call `Intl.DurationFormat` constructor without `new`",
            ),
            Error::InvalidNumberingSystem => String::from_str(
                "provided string was not a valid numbering system",
            ),
            Error::InvalidStyle => String::from_str("provided string was not a valid style option"),
            Error::InvalidDisplay => String::from_str(
                "provided string was not a valid display option",
            ),
            Error::StyleNotAllowed(unit) => {
                let mut text = String::from_str("Invalid style value for unit: ");
                text.append(unit.to_str());
                text
            },
            Error::IncompatibleOptions => String::from_str("incompatible options provided"),
            Error::FractionalDigitsOutOfRange => String::from_str(
                "fractionalDigits must be between 0 and 9",
            ),
        }
    }
}

} // verus!
