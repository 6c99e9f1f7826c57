//! Resolving the style and display of each unit, one after the other.
//!
//! The units are taken in order, from years to nanoseconds. What a unit
//! resolves to depends on the style of the formatter, on what was given for
//! the unit, and on the style that the unit before it resolved to, as far
//! as that unit hands its style on.

use crate::error::Error;
use crate::options::{lookup, Options, TextMap};
use crate::style::{Display, GlobalStyle, Style, StylesList};
use crate::unit::{Unit, UNIT_COUNT};
use vstd::prelude::*;

verus! {

/// The style and display that one unit resolved to.
#[derive(Clone, Copy, Debug, PartialEq, Eq, Structural)]
pub struct UnitOptions {
    pub style: Style,
    pub display: Display,
}

/// Whether the unit before handed on a style written as a number.
pub open spec fn follows_number(prev_style: Option<Style>) -> bool {
    prev_style matches Some(prev) && prev.is_numeric_like()
}

/// The style a unit takes when none was given for it, and the display it
/// would then take when none is given either.
pub open spec fn default_options(
    unit: Unit,
    base_style: GlobalStyle,
    prev_style: Option<Style>,
) -> UnitOptions {
    match base_style.unit_style() {
        None => UnitOptions {
            style: unit.digital_default(),
            display: if unit.is_clock() {
                Display::Always
            } else {
                Display::Auto
            },
        },
        Some(named) => if follows_number(prev_style) {
            UnitOptions {
                style: Style::Numeric,
                display: if unit == Unit::Minutes || unit == Unit::Seconds {
                    Display::Always
                } else {
                    Display::Auto
                },
            }
        } else {
            UnitOptions { style: named, display: Display::Auto }
        },
    }
}

/// The style of a unit before it is held against the unit before it, and
/// the display it takes when none is given. A style that was given comes
/// with the display `always`; below a second, `numeric` becomes
/// `fractional`, with the display `auto`.
pub open spec fn settled_options(
    unit: Unit,
    given: Option<Style>,
    base_style: GlobalStyle,
    prev_style: Option<Style>,
) -> UnitOptions {
    let first = match given {
        Some(style) => UnitOptions { style, display: Display::Always },
        None => default_options(unit, base_style, prev_style),
    };
    if first.style == Style::Numeric && unit.is_subsecond() {
        UnitOptions { style: Style::Fractional, display: Display::Auto }
    } else {
        first
    }
}

/// Holds a unit's style and display against the style handed on by the
/// unit before it. A fractional style cannot always be shown; after a
/// fractional style only a fractional one can follow; after `numeric` or
/// `2-digit` only a style written as a number can follow, and minutes and
/// seconds then take `2-digit`.
pub open spec fn checked_options(
    unit: Unit,
    style: Style,
    display: Display,
    prev_style: Option<Style>,
) -> Result<UnitOptions, Error> {
    if display == Display::Always && style == Style::Fractional {
        Err(Error::IncompatibleOptions)
    } else if prev_style == Some(Style::Fractional) && style != Style::Fractional {
        Err(Error::IncompatibleOptions)
    } else if prev_style == Some(Style::Numeric) || prev_style == Some(Style::TwoDigit) {
        if !style.is_numeric_like() {
            Err(Error::IncompatibleOptions)
        } else if unit == Unit::Minutes || unit == Unit::Seconds {
            Ok(UnitOptions { style: Style::TwoDigit, display })
        } else {
            Ok(UnitOptions { style, display })
        }
    } else {
        Ok(UnitOptions { style, display })
    }
}

/// What one unit resolves to: its style is read, then settled, then its
/// display is read, then both are checked. The first of these to fail
/// gives the error.
pub open spec fn unit_options(
    unit: Unit,
    text: TextMap,
    base_style: GlobalStyle,
    prev_style: Option<Style>,
) -> Result<UnitOptions, Error> {
    match unit.explicit_style(text) {
        Err(error) => Err(error),
        Ok(given) => {
            let settled = settled_options(unit, given, base_style, prev_style);
            match unit.explicit_display(text, settled.display) {
                Err(error) => Err(error),
                Ok(display) => checked_options(unit, settled.style, display, prev_style),
            }
        },
    }
}

/// A resolved unit never has the display `always` together with the style
/// `fractional`, whatever went in.
pub proof fn lemma_fractional_is_never_always(
    unit: Unit,
    text: TextMap,
    base_style: GlobalStyle,
    prev_style: Option<Style>,
)
    ensures
        unit_options(unit, text, base_style, prev_style) matches Ok(resolved) ==> !(
        resolved.display == Display::Always && resolved.style == Style::Fractional),
{
}

/// A resolved unit has a style that the unit accepts, unless a style
/// written as a number is handed to one of the four largest units, which in
/// the order of the units never happens.
pub proof fn lemma_resolved_style_is_allowed(
    unit: Unit,
    text: TextMap,
    base_style: GlobalStyle,
    prev_style: Option<Style>,
)
    requires
        unit.is_clock() || unit.is_subsecond() || !follows_number(prev_style),
    ensures
        unit_options(unit, text, base_style, prev_style) matches Ok(resolved) ==> unit.allows(
            resolved.style,
        ),
{
}

/// Under the digital style, a unit for which nothing was given resolves to
/// its digital default: `short`, shown when not zero, for the four largest
/// units; `numeric`, always shown, for hours, minutes and seconds;
/// `fractional`, shown when not zero, below a second. For the units down to
/// seconds this holds where the unit before did not hand on a style
/// written as a number.
pub proof fn lemma_digital_default(unit: Unit, text: TextMap, prev_style: Option<Style>)
    requires
        lookup(text, unit.name()) is None,
        lookup(text, unit.display_name()) is None,
        unit.is_subsecond() || !follows_number(prev_style),
    ensures
        unit_options(unit, text, GlobalStyle::Digital, prev_style) matches Ok(resolved)
            && resolved == (if unit.is_clock() {
            UnitOptions { style: Style::Numeric, display: Display::Always }
        } else if unit.is_subsecond() {
            UnitOptions { style: Style::Fractional, display: Display::Auto }
        } else {
            UnitOptions { style: Style::Short, display: Display::Auto }
        }),
{
}

impl UnitOptions {
    /// Resolves one unit from what was given for it, the style of the
    /// formatter, and the style handed on by the unit before it.
    pub fn from_options(
        unit: Unit,
        options: &Options,
        base_style: GlobalStyle,
        prev_style: Option<Style>,
    ) -> (resolved: Result<UnitOptions, Error>)
        ensures
            resolved == unit_options(unit, options@.text, base_style, prev_style),
            resolved matches Ok(found) ==> !(found.display == Display::Always && found.style
                == Style::Fractional),
            resolved matches Ok(found) ==> unit.allows(found.style) || (unit.styles_list()
                == StylesList::Base && follows_number(prev_style)),
    {
        let given = match unit.style_from_options(options) {
            Err(error) => {
                return Err(error);
            },
            Ok(given) => given,
        };
        let prev_is_numeric_like = match prev_style {
            Some(Style::Fractional) | Some(Style::Numeric) | Some(Style::TwoDigit) => true,
            _ => false,
        };

        let mut display_default = Display::Always;
        let mut style = match given {
            Some(style) => style,
            None => {
                if base_style == GlobalStyle::Digital {
                    if !unit.is_clock() {
                        display_default = Display::Auto;
                    }
                    unit.digital_default()
                } else if prev_is_numeric_like {
                    if !(unit == Unit::Minutes || unit == Unit::Seconds) {
                        display_default = Display::Auto;
                    }
                    Style::Numeric
                } else {
                    display_default = Display::Auto;
                    base_style.into_style()
                }
            },
        };

        if style == Style::Numeric && unit.is_subsecond() {
            style = Style::Fractional;
            display_default = Display::Auto;
        }
        assert(UnitOptions { style, display: display_default } == settled_options(
            unit,
            given,
            base_style,
            prev_style,
        ));

        let display = match unit.display_from_options(options, display_default) {
            Err(error) => {
                return Err(error);
            },
            Ok(display) => display,
        };

        if display == Display::Always && style == Style::Fractional {
            return Err(Error::IncompatibleOptions);
        }
        if prev_style == Some(Style::Fractional) && style != Style::Fractional {
            return Err(Error::IncompatibleOptions);
        }
        if prev_style == Some(Style::Numeric) || prev_style == Some(Style::TwoDigit) {
            if !(style == Style::Fractional || style == Style::Numeric || style
                == Style::TwoDigit) {
                return Err(Error::IncompatibleOptions);
            }
            if unit == Unit::Minutes || unit == Unit::Seconds {
                style = Style::TwoDigit;
            }
        }

        Ok(UnitOptions { style, display })
    }
}

/// How far the units have been resolved: what the units so far resolved
/// to, in order, and the style that the next unit is held against.
pub struct Progress {
    pub resolved: Seq<UnitOptions>,
    pub prev_style: Option<Style>,
}

/// The style that the unit after `unit` is held against: the style `unit`
/// resolved to where it hands its style on, else what `unit` itself was
/// held against.
pub open spec fn handed_on(unit: Unit, prev_style: Option<Style>, resolved: Style) -> Option<
    Style,
> {
    if unit.carries_style() {
        Some(resolved)
    } else {
        prev_style
    }
}

/// Resolves the first `count` units in order. Nothing is handed to the
/// first unit. The first unit that fails gives the error, and no unit after
/// it is looked at.
pub open spec fn resolve_units(text: TextMap, base_style: GlobalStyle, count: nat) -> Result<
    Progress,
    Error,
>
    decreases count,
{
    if count == 0 {
        Ok(Progress { resolved: Seq::empty(), prev_style: None })
    } else {
        match resolve_units(text, base_style, (count - 1) as nat) {
            Err(error) => Err(error),
            Ok(before) => {
                let unit = Unit::at(count - 1);
                match unit_options(unit, text, base_style, before.prev_style) {
                    Err(error) => Err(error),
                    Ok(found) => Ok(
                        Progress {
                            resolved: before.resolved.push(found),
                            prev_style: handed_on(unit, before.prev_style, found.style),
                        },
                    ),
                }
            },
        }
    }
}

/// Once a unit has failed, the units after it change nothing.
pub proof fn lemma_error_stays(text: TextMap, base_style: GlobalStyle, failed: nat, count: nat)
    requires
        failed <= count,
        resolve_units(text, base_style, failed) is Err,
    ensures
        resolve_units(text, base_style, count) == resolve_units(text, base_style, failed),
    decreases count,
{
    if failed < count {
        lemma_error_stays(text, base_style, failed, (count - 1) as nat);
    }
}

/// Where the first `count` units resolve, there are `count` results; each
/// has a style that its unit accepts; none has the display `always` with
/// the style `fractional`; and nothing is handed on before the first unit
/// that hands its style on.
pub proof fn lemma_resolved_units(text: TextMap, base_style: GlobalStyle, count: nat)
    requires
        count <= UNIT_COUNT,
    ensures
        resolve_units(text, base_style, count) matches Ok(progress) ==> {
            &&& progress.resolved.len() == count
            &&& count <= 4 ==> progress.prev_style is None
            &&& forall|i: int|
                0 <= i < count ==> {
                    &&& Unit::at(i).allows(#[trigger] progress.resolved[i].style)
                    &&& !(progress.resolved[i].display == Display::Always
                        && progress.resolved[i].style == Style::Fractional)
                }
        },
    decreases count,
{
    if count > 0 {
        lemma_resolved_units(text, base_style, (count - 1) as nat);
        if let Ok(before) = resolve_units(text, base_style, (count - 1) as nat) {
            let unit = Unit::at(count - 1);
            lemma_resolved_style_is_allowed(unit, text, base_style, before.prev_style);
            lemma_fractional_is_never_always(unit, text, base_style, before.prev_style);
        }
    }
}

/// Where the first `count` units resolve, so do the first `fewer` of them,
/// and to the same options.
pub proof fn lemma_earlier_units(
    text: TextMap,
    base_style: GlobalStyle,
    fewer: nat,
    count: nat,
)
    requires
        fewer <= count,
        resolve_units(text, base_style, count) is Ok,
    ensures
        resolve_units(text, base_style, fewer) matches Ok(earlier) && earlier.resolved.len()
            == fewer && forall|i: int|
            0 <= i < fewer ==> earlier.resolved[i] == resolve_units(
                text,
                base_style,
                count,
            )->Ok_0.resolved[i],
    decreases count,
{
    lemma_resolved_length(text, base_style, count);
    if fewer < count {
        lemma_resolved_length(text, base_style, (count - 1) as nat);
        lemma_earlier_units(text, base_style, fewer, (count - 1) as nat);
    }
}

/// Where the first `count` units resolve, there are `count` results.
pub proof fn lemma_resolved_length(text: TextMap, base_style: GlobalStyle, count: nat)
    ensures
        resolve_units(text, base_style, count) matches Ok(progress) ==> progress.resolved.len()
            == count,
    decreases count,
{
    if count > 0 {
        lemma_resolved_length(text, base_style, (count - 1) as nat);
    }
}

/// No unit is refused for want of a new target: that is for the caller of
/// the whole to find.
pub proof fn lemma_unit_errors_are_range_errors(
    text: TextMap,
    base_style: GlobalStyle,
    count: nat,
)
    ensures
        resolve_units(text, base_style, count) matches Err(error) ==> error
            != Error::MissingNewTarget,
    decreases count,
{
    if count > 0 {
        lemma_unit_errors_are_range_errors(text, base_style, (count - 1) as nat);
    }
}

/// A unit that is given a style written in words, after a unit that handed
/// on a style written as a number, is refused.
pub proof fn lemma_words_cannot_follow_numbers(
    unit: Unit,
    text: TextMap,
    base_style: GlobalStyle,
    prev_style: Option<Style>,
)
    requires
        follows_number(prev_style),
        unit.explicit_style(text) matches Ok(Some(given)) && !given.is_numeric_like(),
    ensures
        unit_options(unit, text, base_style, prev_style) is Err,
        lookup(text, unit.display_name()) is None ==> (unit_options(
            unit,
            text,
            base_style,
            prev_style,
        ) matches Err(error) && error == Error::IncompatibleOptions),
{
}

/// Where hours are given the style `numeric` or `2-digit` and minutes a
/// style written in words, the units do not resolve, whatever else is
/// given.
pub proof fn lemma_numeric_hours_refuse_worded_minutes(text: TextMap, base_style: GlobalStyle)
    requires
        Unit::Hours.explicit_style(text) matches Ok(Some(hours)) && (hours == Style::Numeric
            || hours == Style::TwoDigit),
        Unit::Minutes.explicit_style(text) matches Ok(Some(minutes)) && !minutes.is_numeric_like(),
    ensures
        resolve_units(text, base_style, UNIT_COUNT as nat) is Err,
{
    if resolve_units(text, base_style, UNIT_COUNT as nat) is Ok {
        lemma_earlier_units(text, base_style, 6, UNIT_COUNT as nat);
        lemma_earlier_units(text, base_style, 5, UNIT_COUNT as nat);
        lemma_earlier_units(text, base_style, 4, UNIT_COUNT as nat);
        lemma_resolved_units(text, base_style, 4);
        let at_hours = resolve_units(text, base_style, 4)->Ok_0;
        let at_minutes = resolve_units(text, base_style, 5)->Ok_0;
        assert(Unit::at(4) == Unit::Hours && Unit::at(5) == Unit::Minutes);
        assert(at_hours.prev_style is None);
        assert(at_minutes.prev_style matches Some(prev) && (prev == Style::Numeric || prev
            == Style::TwoDigit));
        lemma_words_cannot_follow_numbers(Unit::Minutes, text, base_style, at_minutes.prev_style);
    }
}

/// Below a second, a unit for which nothing is given takes the style
/// `fractional` and is shown when not zero, wherever the unit before it
/// handed on a style written as a number, under any style of the formatter.
pub proof fn lemma_fractions_follow_numbers(
    unit: Unit,
    text: TextMap,
    base_style: GlobalStyle,
    prev_style: Option<Style>,
)
    requires
        unit.is_subsecond(),
        lookup(text, unit.name()) is None,
        lookup(text, unit.display_name()) is None,
        follows_number(prev_style),
    ensures
        unit_options(unit, text, base_style, prev_style) matches Ok(resolved) && resolved == (
        UnitOptions { style: Style::Fractional, display: Display::Auto }),
{
}

/// Where seconds are given the style `numeric` and nothing is given for
/// milliseconds, milliseconds resolve to the style `fractional`, shown when
/// not zero.
pub proof fn lemma_numeric_seconds_make_fractional_milliseconds(
    text: TextMap,
    base_style: GlobalStyle,
)
    requires
        Unit::Seconds.explicit_style(text) matches Ok(Some(given)) && given == Style::Numeric,
        lookup(text, Unit::Milliseconds.name()) is None,
        lookup(text, Unit::Milliseconds.display_name()) is None,
    ensures
        resolve_units(text, base_style, UNIT_COUNT as nat) matches Ok(progress)
            ==> progress.resolved[Unit::Milliseconds.index()] == (UnitOptions {
            style: Style::Fractional,
            display: Display::Auto,
        }),
{
    if resolve_units(text, base_style, UNIT_COUNT as nat) is Ok {
        lemma_earlier_units(text, base_style, 8, UNIT_COUNT as nat);
        lemma_earlier_units(text, base_style, 7, UNIT_COUNT as nat);
        lemma_earlier_units(text, base_style, 6, UNIT_COUNT as nat);
        lemma_resolved_length(text, base_style, UNIT_COUNT as nat);
        let at_milliseconds = resolve_units(text, base_style, 7)->Ok_0;
        assert(Unit::at(6) == Unit::Seconds && Unit::at(7) == Unit::Milliseconds);
        assert(follows_number(at_milliseconds.prev_style));
        lemma_fractions_follow_numbers(
            Unit::Milliseconds,
            text,
            base_style,
            at_milliseconds.prev_style,
        );
        lemma_resolved_length(text, base_style, 7);
        let after_milliseconds = resolve_units(text, base_style, 8)->Ok_0;
        assert(after_milliseconds.resolved[7] == (UnitOptions {
            style: Style::Fractional,
            display: Display::Auto,
        }));
    }
}

/// Whether nothing is given for any unit: neither a style nor a display.
pub open spec fn no_unit_is_given(text: TextMap) -> bool {
    forall|unit: Unit|
        #![trigger unit.name()]
        #![trigger unit.display_name()]
        lookup(text, unit.name()) is None && lookup(text, unit.display_name()) is None
}

/// What the ten units resolve to under the digital style when nothing is
/// given for any of them.
pub open spec fn digital_defaults() -> Seq<UnitOptions> {
    let words = UnitOptions { style: Style::Short, display: Display::Auto };
    let clock = UnitOptions { style: Style::TwoDigit, display: Display::Always };
    let fraction = UnitOptions { style: Style::Fractional, display: Display::Auto };
    seq![
        words,
        words,
        words,
        words,
        UnitOptions { style: Style::Numeric, display: Display::Always },
        clock,
        clock,
        fraction,
        fraction,
        fraction,
    ]
}

/// Under the digital style, with nothing given for any unit, the units
/// always resolve: the four largest to `short`, shown when not zero; hours
/// to `numeric` and, held against the hours, minutes and seconds to
/// `2-digit`, all three always shown; the units below a second to
/// `fractional`, shown when not zero.
pub proof fn lemma_digital_units(text: TextMap)
    requires
        no_unit_is_given(text),
    ensures
        resolve_units(text, GlobalStyle::Digital, UNIT_COUNT as nat) matches Ok(progress)
            && progress.resolved == digital_defaults(),
{
    let digital = GlobalStyle::Digital;
    let expected = digital_defaults();
    assert forall|unit: Unit|
        lookup(text, #[trigger] unit.name()) is None && lookup(text, unit.display_name())
            is None by {}
    assert(resolve_units(text, digital, 0)->Ok_0.resolved =~= expected.take(0));
    lemma_digital_step(text, 0);
    lemma_digital_step(text, 1);
    lemma_digital_step(text, 2);
    lemma_digital_step(text, 3);
    lemma_digital_step(text, 4);
    lemma_digital_step(text, 5);
    lemma_digital_step(text, 6);
    lemma_digital_step(text, 7);
    lemma_digital_step(text, 8);
    lemma_digital_step(text, 9);
    assert(expected.take(10) =~= expected);
}

/// The style handed to the unit at a place under the digital style when
/// nothing is given for any unit.
spec fn digital_handed(place: nat) -> Option<Style> {
    if place <= 4 {
        None
    } else if place == 5 {
        Some(Style::Numeric)
    } else if place <= 7 {
        Some(Style::TwoDigit)
    } else {
        Some(Style::Fractional)
    }
}

/// One more unit of the digital defaults.
proof fn lemma_digital_step(text: TextMap, done: nat)
    requires
        no_unit_is_given(text),
        done < UNIT_COUNT,
        resolve_units(text, GlobalStyle::Digital, done) matches Ok(progress) && progress.resolved
            == digital_defaults().take(done as int) && progress.prev_style == digital_handed(
            done,
        ),
    ensures
        resolve_units(text, GlobalStyle::Digital, done + 1) matches Ok(progress)
            && progress.resolved == digital_defaults().take(done as int + 1)
            && progress.prev_style == digital_handed(done + 1),
{
    let unit = Unit::at(done as int);
    assert(lookup(text, unit.name()) is None && lookup(text, unit.display_name()) is None);
    let expected = digital_defaults();
    assert(expected.take(done as int + 1) =~= expected.take(done as int).push(expected[done as int]));
}

/// The options of all ten units, resolved.
#[derive(Clone, Copy, Debug, PartialEq, Eq, Structural)]
pub struct DurationUnitOptions {
    pub years: UnitOptions,
    pub months: UnitOptions,
    pub weeks: UnitOptions,
    pub days: UnitOptions,
    pub hours: UnitOptions,
    pub minutes: UnitOptions,
    pub seconds: UnitOptions,
    pub milliseconds: UnitOptions,
    pub microseconds: UnitOptions,
    pub nanoseconds: UnitOptions,
}

impl DurationUnitOptions {
    /// The options of one unit.
    pub open spec fn spec_get(self, unit: Unit) -> UnitOptions {
        match unit {
            Unit::Years => self.years,
            Unit::Months => self.months,
            Unit::Weeks => self.weeks,
            Unit::Days => self.days,
            Unit::Hours => self.hours,
            Unit::Minutes => self.minutes,
            Unit::Seconds => self.seconds,
            Unit::Milliseconds => self.milliseconds,
            Unit::Microseconds => self.microseconds,
            Unit::Nanoseconds => self.nanoseconds,
        }
    }

    /// The options of the ten units, in the order of the units.
    pub open spec fn in_order(self) -> Seq<UnitOptions> {
        Seq::new(UNIT_COUNT as nat, |i: int| self.spec_get(Unit::at(i)))
    }

    /// The options of one unit.
    #[verifier::when_used_as_spec(spec_get)]
    pub fn get(self, unit: Unit) -> (found: UnitOptions)
        ensures
            found == self.spec_get(unit),
    {
        match unit {
            Unit::Years => self.years,
            Unit::Months => self.months,
            Unit::Weeks => self.weeks,
            Unit::Days => self.days,
            Unit::Hours => self.hours,
            Unit::Minutes => self.minutes,
            Unit::Seconds => self.seconds,
            Unit::Milliseconds => self.milliseconds,
            Unit::Microseconds => self.microseconds,
            Unit::Nanoseconds => self.nanoseconds,
        }
    }

    /// Whether every unit has a style that it accepts, and none has the
    /// display `always` with the style `fractional`.
    pub open spec fn is_consistent(self) -> bool {
        forall|unit: Unit|
            {
                &&& unit.allows(#[trigger] self.spec_get(unit).style)
                &&& !(self.spec_get(unit).display == Display::Always && self.spec_get(unit).style
                    == Style::Fractional)
            }
    }

    /// Resolves the ten units in order, each held against the style handed
    /// on by the one before it, and stops at the first that fails.
    pub fn from_options(options: &Options, style: GlobalStyle) -> (resolved: Result<
        DurationUnitOptions,
        Error,
    >)
        ensures
            match resolve_units(options@.text, style, UNIT_COUNT as nat) {
                Ok(progress) => resolved matches Ok(units) && units.in_order()
                    == progress.resolved,
                Err(error) => resolved matches Err(e) && e == error,
            },
            resolved matches Ok(units) ==> units.is_consistent(),
    {
        let mut found: Vec<UnitOptions> = Vec::new();
        let mut prev_style: Option<Style> = None;
        let mut i: usize = 0;
        while i < UNIT_COUNT
            invariant
                i <= UNIT_COUNT,
                resolve_units(options@.text, style, i as nat) matches Ok(progress)
                    && progress.resolved == found@ && progress.prev_style == prev_style,
            decreases UNIT_COUNT - i,
        {
            let unit = Unit::from_index(i);
            match UnitOptions::from_options(unit, options, style, prev_style) {
                Err(error) => {
                    proof {
                        lemma_error_stays(
                            options@.text,
                            style,
                            (i + 1) as nat,
                            UNIT_COUNT as nat,
                        );
                    }
                    return Err(error);
                },
                Ok(next) => {
                    found.push(next);
                    if unit.carries_style() {
                        prev_style = Some(next.style);
                    }
                },
            }
            i += 1;
        }
        proof {
            lemma_resolved_units(options@.text, style, UNIT_COUNT as nat);
        }
        let units = DurationUnitOptions {
            years: found[0],
            months: found[1],
            weeks: found[2],
            days: found[3],
            hours: found[4],
            minutes: found[5],
            seconds: found[6],
            milliseconds: found[7],
            microseconds: found[8],
            nanoseconds: found[9],
        };
        proof {
            assert(units.in_order() =~= found@);
            assert forall|unit: Unit|
                {
                    &&& unit.allows(#[trigger] units.spec_get(unit).style)
                    &&& !(units.spec_get(unit).display == Display::Always && units.spec_get(
                        unit,
                    ).style == Style::Fractional)
                } by {
                unit.lemma_index_at();
                assert(units.spec_get(unit) == found@[unit.index()]);
            }
        }
        Ok(units)
    }
}

} // verus!
