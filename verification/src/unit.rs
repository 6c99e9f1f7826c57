//! The ten units of a duration and what each of them accepts.

use crate::error::Error;
use crate::options::{lookup, Options, TextMap};
use crate::style::{styles_contain, Display, Style, StylesList};
use vstd::prelude::*;

verus! {

/// One of the ten units of a duration, from the largest to the smallest.
#[derive(Clone, Copy, Debug, PartialEq, Eq, Structural)]
pub enum Unit {
    Years,
    Months,
    Weeks,
    Days,
    Hours,
    Minutes,
    Seconds,
    Milliseconds,
    Microseconds,
    Nanoseconds,
}

/// How many units there are.
pub const UNIT_COUNT: usize = 10;

impl Unit {
    /// The unit's place in the order in which units are resolved.
    pub open spec fn index(self) -> int {
        match self {
            Unit::Years => 0,
            Unit::Months => 1,
            Unit::Weeks => 2,
            Unit::Days => 3,
            Unit::Hours => 4,
            Unit::Minutes => 5,
            Unit::Seconds => 6,
            Unit::Milliseconds => 7,
            Unit::Microseconds => 8,
            Unit::Nanoseconds => 9,
        }
    }

    /// The unit at a place in that order.
    pub open spec fn at(index: int) -> Unit {
        if index <= 0 {
            Unit::Years
        } else if index == 1 {
            Unit::Months
        } else if index == 2 {
            Unit::Weeks
        } else if index == 3 {
            Unit::Days
        } else if index == 4 {
            Unit::Hours
        } else if index == 5 {
            Unit::Minutes
        } else if index == 6 {
            Unit::Seconds
        } else if index == 7 {
            Unit::Milliseconds
        } else if index == 8 {
            Unit::Microseconds
        } else {
            Unit::Nanoseconds
        }
    }

    /// Every unit has a place, and that place is its own.
    pub proof fn lemma_index_at(self)
        ensures
            0 <= self.index() < UNIT_COUNT,
            Unit::at(self.index()) == self,
    {
    }

    /// The unit at a place in the order in which units are resolved.
    pub fn from_index(index: usize) -> (unit: Unit)
        requires
            index < UNIT_COUNT,
        ensures
            unit == Unit::at(index as int),
            unit.index() == index,
    {
        if index == 0 {
            Unit::Years
        } else if index == 1 {
            Unit::Months
        } else if index == 2 {
            Unit::Weeks
        } else if index == 3 {
            Unit::Days
        } else if index == 4 {
            Unit::Hours
        } else if index == 5 {
            Unit::Minutes
        } else if index == 6 {
            Unit::Seconds
        } else if index == 7 {
            Unit::Milliseconds
        } else if index == 8 {
            Unit::Microseconds
        } else {
            Unit::Nanoseconds
        }
    }

    /// The unit's place in the order in which units are resolved.
    pub fn position(self) -> (index: usize)
        ensures
            index == self.index(),
            index < UNIT_COUNT,
    {
        match self {
            Unit::Years => 0,
            Unit::Months => 1,
            Unit::Weeks => 2,
            Unit::Days => 3,
            Unit::Hours => 4,
            Unit::Minutes => 5,
            Unit::Seconds => 6,
            Unit::Milliseconds => 7,
            Unit::Microseconds => 8,
            Unit::Nanoseconds => 9,
        }
    }

    /// The key under which the unit's style is given.
    pub open spec fn name(self) -> Seq<char> {
        match self {
            Unit::Years => "years"@,
            Unit::Months => "months"@,
            Unit::Weeks => "weeks"@,
            Unit::Days => "days"@,
            Unit::Hours => "hours"@,
            Unit::Minutes => "minutes"@,
            Unit::Seconds => "seconds"@,
            Unit::Milliseconds => "milliseconds"@,
            Unit::Microseconds => "microseconds"@,
            Unit::Nanoseconds => "nanoseconds"@,
        }
    }

    /// The key under which the unit's display is given.
    pub open spec fn display_name(self) -> Seq<char> {
        self.name() + "Display"@
    }

    /// No two keys are the same: two units differ in the keys of their
    /// styles and in the keys of their displays, no unit's style is given
    /// under the key of a display, and no unit uses the key of the
    /// formatter's style or of the numbering system.
    pub proof fn lemma_keys_differ(self, other: Unit)
        ensures
            self != other ==> self.name() != other.name(),
            self != other ==> self.display_name() != other.display_name(),
            self.name() != other.display_name(),
            self.name() != "style"@ && self.display_name() != "style"@,
            self.name() != "numberingSystem"@ && self.display_name() != "numberingSystem"@,
    {
        reveal_strlit("style");
        reveal_strlit("numberingSystem");
        assert("style"@.len() == 5 && "style"@[0] == 's' && "numberingSystem"@.len() == 15);
        reveal_strlit("years");
        reveal_strlit("months");
        reveal_strlit("weeks");
        reveal_strlit("days");
        reveal_strlit("hours");
        reveal_strlit("minutes");
        reveal_strlit("seconds");
        reveal_strlit("milliseconds");
        reveal_strlit("microseconds");
        reveal_strlit("nanoseconds");
        reveal_strlit("Display");
        let left = self.name();
        let right = other.name();
        let suffix = "Display"@;
        assert(suffix.len() == 7);
        assert(left.len() >= 4 && right.len() >= 4);
        assert((left + suffix).len() == left.len() + 7);
        assert((right + suffix).len() == right.len() + 7);
        assert((left + suffix)[0] == left[0] && (left + suffix)[2] == left[2]);
        assert((right + suffix)[0] == right[0] && (right + suffix)[2] == right[2]);
        if self != other {
            assert(left.len() != right.len() || left[0] != right[0] || left[2] != right[2]);
        }
        assert(left.len() != right.len() + 7 || left[0] != right[0]);
    }

    /// The key under which the unit's style is given.
    pub fn to_str(self) -> (name: &'static str)
        ensures
            name@ == self.name(),
    {
        match self {
            Unit::Years => "years",
            Unit::Months => "months",
            Unit::Weeks => "weeks",
            Unit::Days => "days",
            Unit::Hours => "hours",
            Unit::Minutes => "minutes",
            Unit::Seconds => "seconds",
            Unit::Milliseconds => "milliseconds",
            Unit::Microseconds => "microseconds",
            Unit::Nanoseconds => "nanoseconds",
        }
    }

    /// Hours, minutes and seconds: the units of a clock face.
    pub open spec fn spec_is_clock(self) -> bool {
        self == Unit::Hours || self == Unit::Minutes || self == Unit::Seconds
    }

    /// Hours, minutes and seconds: the units of a clock face.
    #[verifier::when_used_as_spec(spec_is_clock)]
    pub fn is_clock(self) -> (clock: bool)
        ensures
            clock == self.spec_is_clock(),
    {
        match self {
            Unit::Hours | Unit::Minutes | Unit::Seconds => true,
            _ => false,
        }
    }

    /// The units below a second.
    pub open spec fn spec_is_subsecond(self) -> bool {
        self == Unit::Milliseconds || self == Unit::Microseconds || self == Unit::Nanoseconds
    }

    /// The units below a second.
    #[verifier::when_used_as_spec(spec_is_subsecond)]
    pub fn is_subsecond(self) -> (subsecond: bool)
        ensures
            subsecond == self.spec_is_subsecond(),
    {
        match self {
            Unit::Milliseconds | Unit::Microseconds | Unit::Nanoseconds => true,
            _ => false,
        }
    }

    /// The units whose style the next unit has to agree with: hours down to
    /// microseconds.
    pub open spec fn spec_carries_style(self) -> bool {
        self.is_clock() || self == Unit::Milliseconds || self == Unit::Microseconds
    }

    /// The units whose style the next unit has to agree with: hours down to
    /// microseconds.
    #[verifier::when_used_as_spec(spec_carries_style)]
    pub fn carries_style(self) -> (carries: bool)
        ensures
            carries == self.spec_carries_style(),
    {
        match self {
            Unit::Hours
            | Unit::Minutes
            | Unit::Seconds
            | Unit::Milliseconds
            | Unit::Microseconds => true,
            _ => false,
        }
    }

    /// Which styles the unit accepts.
    pub open spec fn spec_styles_list(self) -> StylesList {
        if self.is_clock() {
            StylesList::Digital
        } else if self.is_subsecond() {
            StylesList::Fractional
        } else {
            StylesList::Base
        }
    }

    /// Whether the unit accepts a style.
    pub open spec fn allows(self, style: Style) -> bool {
        self.spec_styles_list().allows(style)
    }

    /// Which styles the unit accepts.
    #[verifier::when_used_as_spec(spec_styles_list)]
    pub fn styles_list(self) -> (list: StylesList)
        ensures
            list == self.spec_styles_list(),
    {
        match self {
            Unit::Years | Unit::Months | Unit::Weeks | Unit::Days => StylesList::Base,
            Unit::Hours | Unit::Minutes | Unit::Seconds => StylesList::Digital,
            _ => StylesList::Fractional,
        }
    }

    /// The style the unit takes under the digital style when it has none of
    /// its own.
    pub open spec fn spec_digital_default(self) -> Style {
        match self {
            Unit::Years | Unit::Months | Unit::Weeks | Unit::Days => Style::Short,
            Unit::Microseconds | Unit::Nanoseconds => Style::Fractional,
            _ => Style::Numeric,
        }
    }

    /// The style the unit takes under the digital style when it has none of
    /// its own.
    #[verifier::when_used_as_spec(spec_digital_default)]
    pub fn digital_default(self) -> (style: Style)
        ensures
            style == self.spec_digital_default(),
    {
        match self {
            Unit::Years | Unit::Months | Unit::Weeks | Unit::Days => Style::Short,
            Unit::Microseconds | Unit::Nanoseconds => Style::Fractional,
            _ => Style::Numeric,
        }
    }

    /// The style given for the unit: none where its key is not set, an error
    /// where the text under the key names no style or names one that the
    /// unit does not accept.
    pub open spec fn explicit_style(self, text: TextMap) -> Result<Option<Style>, Error> {
        match lookup(text, self.name()) {
            None => Ok(None),
            Some(given) => match Style::parse(given) {
                None => Err(Error::InvalidStyle),
                Some(style) => if self.allows(style) {
                    Ok(Some(style))
                } else {
                    Err(Error::StyleNotAllowed(self))
                },
            },
        }
    }

    /// Reads the style given for the unit.
    pub fn style_from_options(self, options: &Options) -> (style: Result<Option<Style>, Error>)
        ensures
            style == self.explicit_style(options@.text),
    {
        let key = self.to_str();
        let list = self.styles_list().list();
        match options.get(key) {
            None => Ok(None),
            Some(given) => match Style::from_str(given) {
                Err(_) => Err(Error::InvalidStyle),
                Ok(style) => {
                    proof {
                        self.spec_styles_list().lemma_allows_is_membership(style);
                    }
                    if !styles_contain(&list, style) {
                        Err(Error::StyleNotAllowed(self))
                    } else {
                        Ok(Some(style))
                    }
                },
            },
        }
    }

    /// The display given for the unit: the default where its key is not set,
    /// an error where the text under the key names no display.
    pub open spec fn explicit_display(self, text: TextMap, default: Display) -> Result<
        Display,
        Error,
    > {
        match lookup(text, self.display_name()) {
            None => Ok(default),
            Some(given) => match Display::parse(given) {
                None => Err(Error::InvalidDisplay),
                Some(display) => Ok(display),
            },
        }
    }

    /// Reads the display given for the unit, with a default for when none is.
    pub fn display_from_options(self, options: &Options, default: Display) -> (display: Result<
        Display,
        Error,
    >)
        ensures
            display == self.explicit_display(options@.text, default),
    {
        let mut key = String::from_str(self.to_str());
        key.append("Display");
        match options.get(key.as_str()) {
            None => Ok(default),
            Some(given) => match Display::from_str(given) {
                Err(_) => Err(Error::InvalidDisplay),
                Ok(display) => Ok(display),
            },
        }
    }
}

} // verus!
