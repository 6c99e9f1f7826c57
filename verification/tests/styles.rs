use duration_format::{
    base_styles, digital_styles, fractional_styles, styles_contain, text_eq, Display, GlobalStyle,
    ParseDisplayError, ParseGlobalStyleError, ParseStyleError, Style, StylesList,
};

#[test]
fn global_style_reads_each_of_its_names() {
    assert_eq!(GlobalStyle::from_str("long"), Ok(GlobalStyle::Long));
    assert_eq!(GlobalStyle::from_str("short"), Ok(GlobalStyle::Short));
    assert_eq!(GlobalStyle::from_str("narrow"), Ok(GlobalStyle::Narrow));
    assert_eq!(GlobalStyle::from_str("digital"), Ok(GlobalStyle::Digital));
}

#[test]
fn global_style_refuses_any_other_text() {
    assert_eq!(GlobalStyle::from_str("numeric"), Err(ParseGlobalStyleError));
    assert_eq!(GlobalStyle::from_str("2-digit"), Err(ParseGlobalStyleError));
    assert_eq!(GlobalStyle::from_str("Long"), Err(ParseGlobalStyleError));
    assert_eq!(GlobalStyle::from_str("long "), Err(ParseGlobalStyleError));
    assert_eq!(GlobalStyle::from_str(""), Err(ParseGlobalStyleError));
}

#[test]
fn global_style_defaults_to_short() {
    assert_eq!(GlobalStyle::default(), GlobalStyle::Short);
}

#[test]
fn global_style_names_a_unit_style_unless_digital() {
    assert_eq!(GlobalStyle::Long.into_style(), Style::Long);
    assert_eq!(GlobalStyle::Short.into_style(), Style::Short);
    assert_eq!(GlobalStyle::Narrow.into_style(), Style::Narrow);
}

#[test]
fn style_reads_each_of_its_names() {
    assert_eq!(Style::from_str("long"), Ok(Style::Long));
    assert_eq!(Style::from_str("short"), Ok(Style::Short));
    assert_eq!(Style::from_str("narrow"), Ok(Style::Narrow));
    assert_eq!(Style::from_str("numeric"), Ok(Style::Numeric));
    assert_eq!(Style::from_str("2-digit"), Ok(Style::TwoDigit));
    assert_eq!(Style::from_str("fractional"), Ok(Style::Fractional));
}

#[test]
fn style_refuses_any_other_text() {
    assert_eq!(Style::from_str("digital"), Err(ParseStyleError));
    assert_eq!(Style::from_str("two-digit"), Err(ParseStyleError));
    assert_eq!(Style::from_str("2digit"), Err(ParseStyleError));
    assert_eq!(Style::from_str("NUMERIC"), Err(ParseStyleError));
    assert_eq!(Style::from_str(""), Err(ParseStyleError));
}

#[test]
fn display_reads_each_of_its_names() {
    assert_eq!(Display::from_str("auto"), Ok(Display::Auto));
    assert_eq!(Display::from_str("always"), Ok(Display::Always));
}

#[test]
fn display_refuses_any_other_text() {
    assert_eq!(Display::from_str("never"), Err(ParseDisplayError));
    assert_eq!(Display::from_str("Auto"), Err(ParseDisplayError));
    assert_eq!(Display::from_str(""), Err(ParseDisplayError));
}

#[test]
fn parse_errors_say_what_was_wrong() {
    assert_eq!(
        ParseGlobalStyleError.message(),
        "provided string was not a valid style option"
    );
    assert_eq!(ParseStyleError.message(), "provided string was not a valid style option");
    assert_eq!(
        ParseDisplayError.message(),
        "provided string was not a valid display option"
    );
}

#[test]
fn base_styles_are_long_short_and_narrow() {
    assert_eq!(base_styles(), vec![Style::Long, Style::Short, Style::Narrow]);
}

#[test]
fn digital_styles_add_numeric_and_two_digit() {
    assert_eq!(
        digital_styles(),
        vec![Style::Long, Style::Short, Style::Narrow, Style::Numeric, Style::TwoDigit]
    );
}

#[test]
fn fractional_styles_add_fractional() {
    assert_eq!(
        fractional_styles(),
        vec![Style::Long, Style::Short, Style::Narrow, Style::Fractional]
    );
}

#[test]
fn each_list_gives_its_styles() {
    assert_eq!(StylesList::Base.list(), base_styles());
    assert_eq!(StylesList::Digital.list(), digital_styles());
    assert_eq!(StylesList::Fractional.list(), fractional_styles());
}

#[test]
fn a_list_of_styles_is_searched_for_a_style() {
    let base = base_styles();
    assert!(styles_contain(&base, Style::Long));
    assert!(styles_contain(&base, Style::Narrow));
    assert!(!styles_contain(&base, Style::Numeric));
    assert!(!styles_contain(&base, Style::Fractional));
    let digital = digital_styles();
    assert!(styles_contain(&digital, Style::TwoDigit));
    assert!(!styles_contain(&digital, Style::Fractional));
    let fractional = fractional_styles();
    assert!(styles_contain(&fractional, Style::Fractional));
    assert!(!styles_contain(&fractional, Style::Numeric));
    assert!(!styles_contain(&Vec::new(), Style::Long));
}

#[test]
fn texts_are_equal_when_their_characters_are() {
    assert!(text_eq("hours", "hours"));
    assert!(text_eq("", ""));
    assert!(!text_eq("hours", "hour"));
    assert!(!text_eq("hours", "Hours"));
    assert!(!text_eq("", "x"));
}
