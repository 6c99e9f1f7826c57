use duration_format::{
    numbering_system_from_options, select_numbering_system, Display, DurationFormat,
    DurationFormatLocaleOptions, Error, ErrorKind, GlobalStyle, Options, Style, Unit, UnitOptions,
};
use icu_locid::extensions::unicode::Value;
use icu_locid::Locale;

fn locale(text: &str) -> Locale {
    text.parse().unwrap()
}

fn value(text: &str) -> Value {
    text.parse().unwrap()
}

fn with(entries: &[(&str, &str)]) -> Options {
    let mut options = Options::new();
    for (key, value) in entries {
        options.set(key, value);
    }
    options
}

fn every(_: &Locale, _: &Value) -> bool {
    true
}

fn none(_: &Locale, _: &Value) -> bool {
    false
}

#[test]
fn a_call_without_a_new_target_is_a_type_error() {
    let made = DurationFormat::constructor(false, locale("en"), &Options::new(), every);
    let error = made.unwrap_err();
    assert_eq!(error, Error::MissingNewTarget);
    assert_eq!(error.kind(), ErrorKind::Type);
}

#[test]
fn a_missing_new_target_is_found_before_any_option_is_read() {
    let mut options = with(&[("numberingSystem", "!"), ("style", "bogus"), ("years", "numeric")]);
    options.set_fractional_digits(40);
    let made = DurationFormat::constructor(false, locale("en"), &options, every);
    assert_eq!(made.unwrap_err(), Error::MissingNewTarget);
}

#[test]
fn without_options_everything_takes_its_default() {
    let format = DurationFormat::constructor(true, locale("en-US"), &Options::new(), every).unwrap();
    assert_eq!(format.locale().to_string(), "en-US");
    assert_eq!(format.numbering_system(), None);
    assert_eq!(format.style(), GlobalStyle::Short);
    assert_eq!(format.fractional_digits(), None);
    for index in 0..10 {
        assert_eq!(
            format.unit_options(Unit::from_index(index)),
            UnitOptions { style: Style::Short, display: Display::Auto }
        );
    }
}

#[test]
fn the_resolved_options_can_all_be_read_back() {
    let mut options = with(&[
        ("style", "digital"),
        ("numberingSystem", "latn"),
        ("years", "long"),
        ("hoursDisplay", "auto"),
    ]);
    options.set_fractional_digits(4);
    let format = DurationFormat::constructor(true, locale("de-AT"), &options, every).unwrap();
    assert_eq!(format.locale().to_string(), "de-AT-u-nu-latn");
    assert_eq!(format.numbering_system(), Some(&value("latn")));
    assert_eq!(format.style(), GlobalStyle::Digital);
    assert_eq!(format.fractional_digits(), Some(4));
    let units = format.units();
    assert_eq!(units.years, UnitOptions { style: Style::Long, display: Display::Always });
    assert_eq!(units.months, UnitOptions { style: Style::Short, display: Display::Auto });
    assert_eq!(units.hours, UnitOptions { style: Style::Numeric, display: Display::Auto });
    assert_eq!(units.minutes, UnitOptions { style: Style::TwoDigit, display: Display::Always });
    assert_eq!(units.seconds, UnitOptions { style: Style::TwoDigit, display: Display::Always });
    assert_eq!(units.milliseconds, UnitOptions { style: Style::Fractional, display: Display::Auto });
    assert_eq!(format.unit_options(Unit::Years), units.years);
    assert_eq!(format.unit_options(Unit::Nanoseconds), units.nanoseconds);
}

#[test]
fn a_supported_numbering_system_is_kept_and_written_into_the_locale() {
    let options = with(&[("numberingSystem", "arab")]);
    let format = DurationFormat::constructor(true, locale("ar-EG"), &options, every).unwrap();
    assert_eq!(format.numbering_system().unwrap().to_string(), "arab");
    assert_eq!(format.locale().to_string(), "ar-EG-u-nu-arab");
}

#[test]
fn an_unsupported_numbering_system_is_left_out_without_an_error() {
    let options = with(&[("numberingSystem", "arab")]);
    let format = DurationFormat::constructor(true, locale("en-US"), &options, none).unwrap();
    assert_eq!(format.numbering_system(), None);
    assert_eq!(format.locale().to_string(), "en-US");
}

#[test]
fn a_numbering_system_is_read_in_its_canonical_form() {
    let options = with(&[("numberingSystem", "LATN")]);
    let format = DurationFormat::constructor(true, locale("en"), &options, every).unwrap();
    assert_eq!(format.numbering_system().unwrap().to_string(), "latn");
    assert_eq!(format.locale().to_string(), "en-u-nu-latn");
    let options = with(&[("numberingSystem", "Hans_Fin")]);
    let asked = numbering_system_from_options(&options).unwrap().unwrap();
    assert_eq!(asked.to_string(), "hans-fin");
}

#[test]
fn a_numbering_system_that_is_not_written_as_one_is_refused() {
    for text in ["ab", "toolongsubtag", "la tn", "latn-", "-latn", "latn--arab", "lat!", "l\u{e4}tn"] {
        let options = with(&[("numberingSystem", text)]);
        assert_eq!(numbering_system_from_options(&options), Err(Error::InvalidNumberingSystem));
        let made = DurationFormat::constructor(true, locale("en"), &options, every);
        let error = made.unwrap_err();
        assert_eq!(error, Error::InvalidNumberingSystem);
        assert_eq!(error.kind(), ErrorKind::Range);
    }
}

#[test]
fn a_numbering_system_of_several_subtags_is_accepted() {
    for text in ["latn", "abc", "abcdefgh", "hans-fin", "abc-12345678", "123"] {
        let options = with(&[("numberingSystem", text)]);
        let asked = numbering_system_from_options(&options).unwrap().unwrap();
        assert_eq!(asked.to_string(), text);
    }
    assert_eq!(numbering_system_from_options(&Options::new()), Ok(None));
}

#[test]
fn the_numbering_system_of_the_locale_is_kept_where_none_is_asked_for() {
    let format =
        DurationFormat::constructor(true, locale("ar-u-nu-arab"), &Options::new(), every).unwrap();
    assert_eq!(format.numbering_system(), Some(&value("arab")));
    assert_eq!(format.locale().to_string(), "ar-u-nu-arab");
}

#[test]
fn the_numbering_system_of_the_locale_is_dropped_where_it_is_not_supported() {
    let format =
        DurationFormat::constructor(true, locale("en-u-nu-arab"), &Options::new(), none).unwrap();
    assert_eq!(format.numbering_system(), None);
    assert_eq!(format.locale().to_string(), "en");
}

#[test]
fn the_numbering_system_asked_for_comes_before_that_of_the_locale() {
    let options = with(&[("numberingSystem", "latn")]);
    let format =
        DurationFormat::constructor(true, locale("ar-u-nu-arab"), &options, every).unwrap();
    assert_eq!(format.numbering_system(), Some(&value("latn")));
    assert_eq!(format.locale().to_string(), "ar-u-nu-latn");
}

#[test]
fn the_numbering_system_of_the_locale_stands_in_for_one_that_is_not_supported() {
    let options = with(&[("numberingSystem", "thai")]);
    let only_arab = |_: &Locale, asked: &Value| asked.to_string() == "arab";
    let format =
        DurationFormat::constructor(true, locale("ar-u-nu-arab"), &options, only_arab).unwrap();
    assert_eq!(format.numbering_system(), Some(&value("arab")));
    assert_eq!(format.locale().to_string(), "ar-u-nu-arab");
}

#[test]
fn the_oracle_is_asked_about_the_locale_as_it_came() {
    let options = with(&[("numberingSystem", "latn")]);
    let for_german = |asked_for: &Locale, _: &Value| asked_for.to_string() == "de-u-ca-gregory";
    let format =
        DurationFormat::constructor(true, locale("de-u-ca-gregory"), &options, for_german).unwrap();
    assert_eq!(format.numbering_system(), Some(&value("latn")));
    assert_eq!(format.locale().to_string(), "de-u-nu-latn");
}

#[test]
fn the_locale_keeps_only_the_numbering_system_of_its_unicode_extension() {
    let text = "en-GB-u-attr-ca-gregory-hc-h23-nu-latn";
    let format = DurationFormat::constructor(true, locale(text), &Options::new(), every).unwrap();
    assert_eq!(format.locale().to_string(), "en-GB-u-nu-latn");
    let format = DurationFormat::constructor(true, locale(text), &Options::new(), none).unwrap();
    assert_eq!(format.locale().to_string(), "en-GB");
    let format =
        DurationFormat::constructor(true, locale("en-u-ca-gregory"), &Options::new(), every)
            .unwrap();
    assert_eq!(format.locale().to_string(), "en");
}

#[test]
fn the_rest_of_the_locale_stays_as_it_was() {
    let text = "sr-Latn-RS-t-hi-h0-hybrid-u-nu-latn-x-private";
    let format = DurationFormat::constructor(true, locale(text), &Options::new(), every).unwrap();
    assert_eq!(format.locale().to_string(), "sr-Latn-RS-t-hi-h0-hybrid-u-nu-latn-x-private");
    let format = DurationFormat::constructor(true, locale(text), &Options::new(), none).unwrap();
    assert_eq!(format.locale().to_string(), "sr-Latn-RS-t-hi-h0-hybrid-x-private");
}

#[test]
fn resolve_leaves_what_was_kept_in_the_options() {
    let mut negotiated = locale("ar-u-attr-nu-arab-ca-islamic");
    let mut options = DurationFormatLocaleOptions { numbering_system: Some(value("latn")) };
    DurationFormat::resolve(&mut negotiated, &mut options, every);
    assert_eq!(options.numbering_system, Some(value("latn")));
    assert_eq!(negotiated.to_string(), "ar-u-nu-latn");

    let mut negotiated = locale("ar-u-attr-nu-arab-ca-islamic");
    let mut options = DurationFormatLocaleOptions { numbering_system: Some(value("latn")) };
    DurationFormat::resolve(&mut negotiated, &mut options, |_: &Locale, asked: &Value| {
        asked.to_string() == "arab"
    });
    assert_eq!(options.numbering_system, Some(value("arab")));
    assert_eq!(negotiated.to_string(), "ar-u-nu-arab");

    let mut negotiated = locale("ar-u-attr-nu-arab-ca-islamic");
    let mut options = DurationFormatLocaleOptions { numbering_system: Some(value("latn")) };
    DurationFormat::resolve(&mut negotiated, &mut options, none);
    assert_eq!(options.numbering_system, None);
    assert_eq!(negotiated.to_string(), "ar");

    let mut negotiated = locale("ar");
    let mut options = DurationFormatLocaleOptions { numbering_system: None };
    DurationFormat::resolve(&mut negotiated, &mut options, every);
    assert_eq!(options.numbering_system, None);
    assert_eq!(negotiated.to_string(), "ar");
}

#[test]
fn of_two_numbering_systems_the_first_supported_one_is_kept() {
    let asked = || Some(value("latn"));
    let carried = || Some(value("arab"));
    assert_eq!(select_numbering_system(asked(), true, carried(), true), asked());
    assert_eq!(select_numbering_system(asked(), true, carried(), false), asked());
    assert_eq!(select_numbering_system(asked(), true, None, false), asked());
    assert_eq!(select_numbering_system(asked(), false, carried(), true), carried());
    assert_eq!(select_numbering_system(None, false, carried(), true), carried());
    assert_eq!(select_numbering_system(None, true, carried(), true), carried());
    assert_eq!(select_numbering_system(asked(), false, carried(), false), None);
    assert_eq!(select_numbering_system(asked(), false, None, true), None);
    assert_eq!(select_numbering_system(None, false, None, false), None);
}

#[test]
fn fractional_digits_from_zero_to_nine_make_a_formatter() {
    for digits in 0..=9 {
        let mut options = Options::new();
        options.set_fractional_digits(digits);
        let format = DurationFormat::constructor(true, locale("en"), &options, every).unwrap();
        assert_eq!(format.fractional_digits(), Some(digits as i32));
    }
}

#[test]
fn fractional_digits_outside_zero_to_nine_are_a_range_error() {
    for digits in [-1, 10, 1000, i64::MIN, i64::MAX] {
        let mut options = Options::new();
        options.set_fractional_digits(digits);
        let error = DurationFormat::constructor(true, locale("en"), &options, every).unwrap_err();
        assert_eq!(error, Error::FractionalDigitsOutOfRange);
        assert_eq!(error.kind(), ErrorKind::Range);
    }
}

#[test]
fn fractional_digits_left_open_are_not_zero() {
    let open = DurationFormat::constructor(true, locale("en"), &Options::new(), every).unwrap();
    let mut options = Options::new();
    options.set_fractional_digits(0);
    let zero = DurationFormat::constructor(true, locale("en"), &options, every).unwrap();
    assert_eq!(open.fractional_digits(), None);
    assert_eq!(zero.fractional_digits(), Some(0));
}

#[test]
fn a_style_of_the_formatter_that_names_none_is_a_range_error() {
    let options = with(&[("style", "numeric")]);
    let error = DurationFormat::constructor(true, locale("en"), &options, every).unwrap_err();
    assert_eq!(error, Error::InvalidStyle);
    assert_eq!(error.kind(), ErrorKind::Range);
}

#[test]
fn the_options_are_read_in_order_and_the_first_error_is_given() {
    let mut options = with(&[("numberingSystem", "x"), ("style", "bogus"), ("years", "numeric")]);
    options.set_fractional_digits(10);
    let error = DurationFormat::constructor(true, locale("en"), &options, every).unwrap_err();
    assert_eq!(error, Error::InvalidNumberingSystem);

    let mut options = with(&[("style", "bogus"), ("years", "numeric")]);
    options.set_fractional_digits(10);
    let error = DurationFormat::constructor(true, locale("en"), &options, every).unwrap_err();
    assert_eq!(error, Error::InvalidStyle);

    let mut options = with(&[("years", "numeric")]);
    options.set_fractional_digits(10);
    let error = DurationFormat::constructor(true, locale("en"), &options, every).unwrap_err();
    assert_eq!(error, Error::StyleNotAllowed(Unit::Years));

    let mut options = with(&[("nanosecondsDisplay", "always"), ("style", "digital")]);
    options.set_fractional_digits(10);
    let error = DurationFormat::constructor(true, locale("en"), &options, every).unwrap_err();
    assert_eq!(error, Error::IncompatibleOptions);
}

#[test]
fn numeric_hours_with_long_minutes_make_no_formatter() {
    let options = with(&[("hours", "numeric"), ("minutes", "long")]);
    let error = DurationFormat::constructor(true, locale("en"), &options, every).unwrap_err();
    assert_eq!(error, Error::IncompatibleOptions);
    assert_eq!(error.kind(), ErrorKind::Range);
}

#[test]
fn long_style_with_numeric_seconds_makes_milliseconds_fractional() {
    let options = with(&[("style", "long"), ("seconds", "numeric")]);
    let format = DurationFormat::constructor(true, locale("en"), &options, every).unwrap();
    assert_eq!(format.style(), GlobalStyle::Long);
    assert_eq!(
        format.unit_options(Unit::Seconds),
        UnitOptions { style: Style::Numeric, display: Display::Always }
    );
    assert_eq!(
        format.unit_options(Unit::Milliseconds),
        UnitOptions { style: Style::Fractional, display: Display::Auto }
    );
}

#[test]
fn the_digital_style_without_more_resolves_to_its_defaults() {
    let options = with(&[("style", "digital")]);
    let format = DurationFormat::constructor(true, locale("en"), &options, every).unwrap();
    for unit in [Unit::Years, Unit::Months, Unit::Weeks, Unit::Days] {
        assert_eq!(
            format.unit_options(unit),
            UnitOptions { style: Style::Short, display: Display::Auto }
        );
    }
    assert_eq!(
        format.unit_options(Unit::Hours),
        UnitOptions { style: Style::Numeric, display: Display::Always }
    );
    for unit in [Unit::Minutes, Unit::Seconds] {
        assert_eq!(
            format.unit_options(unit),
            UnitOptions { style: Style::TwoDigit, display: Display::Always }
        );
    }
    for unit in [Unit::Milliseconds, Unit::Microseconds, Unit::Nanoseconds] {
        assert_eq!(
            format.unit_options(unit),
            UnitOptions { style: Style::Fractional, display: Display::Auto }
        );
    }
}
