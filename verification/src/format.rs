//! The formatter's resolved configuration and how it is made.

use crate::error::{Error, ErrorKind};
use crate::locale::{
    carries_only, clear_unicode, clone_value, keyword, keywords, negotiated, numbering_key,
    numbering_system_from_options, requested_numbering_system, rewritten,
    select_numbering_system, set_keyword, value_text, DurationFormatLocaleOptions,
};
use crate::options::{lookup, Options, OptionsView};
use crate::style::{requested_style, Display, GlobalStyle, Style};
use crate::unit::{Unit, UNIT_COUNT};
use crate::unit_options::{
    lemma_unit_errors_are_range_errors, resolve_units, DurationUnitOptions, UnitOptions,
};
use icu_locid::extensions::unicode::Value;
use icu_locid::Locale;
use vstd::prelude::*;

verus! {

/// The number of fractional digits asked for: none where none was given, an
/// error where the number given is below 0 or above 9.
pub open spec fn requested_fractional_digits(given: Option<i64>) -> Result<Option<i32>, Error> {
    match given {
        None => Ok(None),
        Some(digits) => if 0 <= digits <= 9 {
            Ok(Some(digits as i32))
        } else {
            Err(Error::FractionalDigitsOutOfRange)
        },
    }
}

/// Why no formatter is made of a set of options, if none is. The options
/// are read in a fixed order and the first that is not acceptable decides:
/// the numbering system, the style, the units from years to nanoseconds,
/// the fractional digits. Before all of them, a call without a new target
/// is refused.
pub open spec fn first_error(new_target: bool, options: OptionsView) -> Option<Error> {
    if !new_target {
        Some(Error::MissingNewTarget)
    } else {
        match requested_numbering_system(options.text) {
            Err(error) => Some(error),
            Ok(_) => match requested_style(options.text) {
                Err(error) => Some(error),
                Ok(style) => match resolve_units(options.text, style, UNIT_COUNT as nat) {
                    Err(error) => Some(error),
                    Ok(_) => match requested_fractional_digits(options.fractional_digits) {
                        Err(error) => Some(error),
                        Ok(_) => None,
                    },
                },
            },
        }
    }
}

/// A number of fractional digits below 0 or above 9 is refused, and with a
/// new target the call then fails with a range error, whatever else is
/// asked for. No number at all is accepted and stays apart from 0.
pub proof fn lemma_fractional_digits_in_range(options: OptionsView)
    ensures
        options.fractional_digits matches Some(given) && !(0 <= given <= 9) ==> {
            &&& requested_fractional_digits(options.fractional_digits) matches Err(error)
                && error == Error::FractionalDigitsOutOfRange
            &&& first_error(true, options) matches Some(error) && error.kind() == ErrorKind::Range
        },
        requested_fractional_digits(None) matches Ok(None),
        requested_fractional_digits(Some(0)) matches Ok(Some(digits)) && digits == 0,
{
    lemma_errors_by_kind(true, options);
}

/// A call without a new target fails with a type error. Every other
/// failure is a range error.
pub proof fn lemma_errors_by_kind(new_target: bool, options: OptionsView)
    ensures
        first_error(new_target, options) matches Some(error) ==> (error.kind() == ErrorKind::Type
            <==> !new_target),
        !new_target ==> first_error(new_target, options) == Some(Error::MissingNewTarget),
{
    if new_target {
        if let Ok(style) = requested_style(options.text) {
            lemma_unit_errors_are_range_errors(options.text, style, UNIT_COUNT as nat);
        }
    }
}

/// Reads the number of fractional digits asked for. A number from 0 to 9 is
/// taken; any other is refused; none stays none, which is not the same as 0.
pub fn fractional_digits_from_options(options: &Options) -> (digits: Result<Option<i32>, Error>)
    ensures
        digits == requested_fractional_digits(options@.fractional_digits),
        options@.fractional_digits is None ==> digits matches Ok(None),
        options@.fractional_digits matches Some(given) ==> (digits is Ok <==> 0 <= given <= 9),
        digits matches Ok(Some(taken)) ==> 0 <= taken <= 9 && options@.fractional_digits == Some(
            taken as i64,
        ),
{
    match options.fractional_digits() {
        None => Ok(None),
        Some(given) => if 0 <= given && given <= 9 {
            Ok(Some(given as i32))
        } else {
            Err(Error::FractionalDigitsOutOfRange)
        },
    }
}

/// A formatter's resolved configuration. It is made once and then only
/// read.
#[derive(Debug)]
pub struct DurationFormat {
    locale: Locale,
    numbering_system: Option<Value>,
    style: GlobalStyle,
    fractional_digits: Option<i32>,
    units: DurationUnitOptions,
}

impl DurationFormat {
    #[verifier::type_invariant]
    spec fn is_resolved(self) -> bool {
        &&& self.units.is_consistent()
        &&& self.fractional_digits matches Some(digits) ==> 0 <= digits <= 9
        &&& carries_only(self.locale, self.numbering_text())
    }

    /// The formatter's locale.
    pub closed spec fn spec_locale(&self) -> &Locale {
        &self.locale
    }

    /// The formatter's numbering system, if it has one of its own.
    pub closed spec fn spec_numbering_system(&self) -> Option<&Value> {
        match &self.numbering_system {
            Some(value) => Some(value),
            None => None,
        }
    }

    /// The text of the formatter's numbering system, if it has one.
    pub closed spec fn numbering_text(self) -> Option<Seq<char>> {
        match self.numbering_system {
            Some(value) => Some(value_text(value)),
            None => None,
        }
    }

    /// The formatter's style.
    pub closed spec fn spec_style(&self) -> GlobalStyle {
        self.style
    }

    /// The most fractional digits the formatter writes, if that was set.
    pub closed spec fn spec_fractional_digits(&self) -> Option<i32> {
        self.fractional_digits
    }

    /// What the ten units resolved to.
    pub closed spec fn spec_units(&self) -> DurationUnitOptions {
        self.units
    }

    /// The formatter's locale. Its Unicode extension holds the numbering
    /// system, where the formatter has one, and nothing else.
    #[verifier::when_used_as_spec(spec_locale)]
    pub fn locale(&self) -> (locale: &Locale)
        ensures
            locale == self.spec_locale(),
            carries_only(*locale, self.numbering_text()),
    {
        proof {
            use_type_invariant(self);
        }
        &self.locale
    }

    /// The formatter's numbering system, if it has one of its own.
    #[verifier::when_used_as_spec(spec_numbering_system)]
    pub fn numbering_system(&self) -> (value: Option<&Value>)
        ensures
            value == self.spec_numbering_system(),
            match value {
                Some(held) => self.numbering_text() == Some(value_text(*held)),
                None => self.numbering_text() is None,
            },
    {
        self.numbering_system.as_ref()
    }

    /// The formatter's style.
    #[verifier::when_used_as_spec(spec_style)]
    pub fn style(&self) -> (style: GlobalStyle)
        ensures
            style == self.spec_style(),
    {
        self.style
    }

    /// The most fractional digits the formatter writes: from 0 to 9, or
    /// none where that was left open.
    #[verifier::when_used_as_spec(spec_fractional_digits)]
    pub fn fractional_digits(&self) -> (digits: Option<i32>)
        ensures
            digits == self.spec_fractional_digits(),
            digits matches Some(held) ==> 0 <= held <= 9,
    {
        proof {
            use_type_invariant(self);
        }
        self.fractional_digits
    }

    /// What the ten units resolved to. Each has a style that it accepts, and
    /// none is always shown in the fractional style.
    #[verifier::when_used_as_spec(spec_units)]
    pub fn units(&self) -> (units: DurationUnitOptions)
        ensures
            units == self.spec_units(),
            units.is_consistent(),
    {
        proof {
            use_type_invariant(self);
        }
        self.units
    }

    /// What one unit resolved to.
    pub fn unit_options(&self, unit: Unit) -> (found: UnitOptions)
        ensures
            found == self.spec_units().spec_get(unit),
            unit.allows(found.style),
            !(found.display == Display::Always && found.style == Style::Fractional),
    {
        proof {
            use_type_invariant(self);
        }
        self.units.get(unit)
    }

    /// Settles the numbering system of a formatter and writes it into the
    /// locale. The oracle says whether the locale supports a numbering
    /// system. It is asked about the one in `options` first, and about the
    /// one the locale carries under the key `nu` where it refused the
    /// first or there is none. What it accepted is left in `options`. The
    /// locale loses its Unicode extension and gets the numbering system
    /// that was kept as its only keyword.
    pub fn resolve<F: Fn(&Locale, &Value) -> bool>(
        locale: &mut Locale,
        options: &mut DurationFormatLocaleOptions,
        is_supported: F,
    )
        requires
            forall|l: &Locale, v: &Value| call_requires(is_supported, (l, v)),
        ensures
            negotiated(
                is_supported,
                *old(locale),
                old(options).text(),
                lookup(keywords(*old(locale)), numbering_key()),
                final(options).text(),
            ),
            rewritten(*old(locale), *final(locale), final(options).text()),
    {
        proof {
            reveal_strlit("nu");
        }
        let asked = options.numbering_system.take();
        let asked_supported = match &asked {
            Some(value) => is_supported(locale, value),
            None => false,
        };
        let carried = if asked_supported {
            None
        } else {
            keyword(locale, "nu")
        };
        let carried_supported = match &carried {
            Some(value) => is_supported(locale, value),
            None => false,
        };
        let kept = select_numbering_system(asked, asked_supported, carried, carried_supported);
        clear_unicode(locale);
        match &kept {
            Some(value) => {
                set_keyword(locale, "nu", clone_value(value));
            },
            None => {},
        }
        options.numbering_system = kept;
    }

    /// Makes a formatter from the locale that was negotiated for it and the
    /// options it was asked for. A call without a new target is refused.
    /// Then the options are read in a fixed order, and the first that is
    /// not acceptable is the error. Whether the oracle supports a numbering
    /// system never makes the call fail: a numbering system that is not
    /// supported is left out.
    pub fn constructor<F: Fn(&Locale, &Value) -> bool>(
        new_target: bool,
        locale: Locale,
        options: &Options,
        is_supported: F,
    ) -> (made: Result<DurationFormat, Error>)
        requires
            forall|l: &Locale, v: &Value| call_requires(is_supported, (l, v)),
        ensures
            match first_error(new_target, options@) {
                Some(error) => made matches Err(e) && e == error,
                None => made matches Ok(format) && {
                    &&& requested_style(options@.text) matches Ok(style) && style
                        == format.style()
                    &&& resolve_units(options@.text, format.style(), UNIT_COUNT as nat) matches Ok(
                        progress,
                    ) && progress.resolved == format.units().in_order()
                    &&& format.units().is_consistent()
                    &&& requested_fractional_digits(options@.fractional_digits) matches Ok(
                        digits,
                    ) && digits == format.fractional_digits()
                    &&& requested_numbering_system(options@.text) matches Ok(asked) && negotiated(
                        is_supported,
                        locale,
                        asked,
                        lookup(keywords(locale), numbering_key()),
                        format.numbering_text(),
                    )
                    &&& rewritten(locale, *format.locale(), format.numbering_text())
                },
            },
    {
        if !new_target {
            return Err(Error::MissingNewTarget);
        }
        let numbering_system = match numbering_system_from_options(options) {
            Err(error) => {
                return Err(error);
            },
            Ok(asked) => asked,
        };
        let mut opt = DurationFormatLocaleOptions { numbering_system };
        let mut locale = locale;
        Self::resolve(&mut locale, &mut opt, is_supported);

        let style = match GlobalStyle::from_options(options) {
            Err(error) => {
                return Err(error);
            },
            Ok(style) => style,
        };
        let units = match DurationUnitOptions::from_options(options, style) {
            Err(error) => {
                return Err(error);
            },
            Ok(units) => units,
        };
        let fractional_digits = match fractional_digits_from_options(options) {
            Err(error) => {
                return Err(error);
            },
            Ok(digits) => digits,
        };

        Ok(
            DurationFormat {
                locale,
                numbering_system: opt.numbering_system,
                style,
                fractional_digits,
                units,
            },
        )
    }
}

} // verus!
