//! The styles a duration can be written in, and how a zero unit is shown.

use crate::error::Error;
use crate::options::{lookup, Options, TextMap};
use crate::text::text_eq;
use vstd::prelude::*;

verus! {

/// The style asked for the formatter as a whole.
#[derive(Clone, Copy, Debug, PartialEq, Eq, Structural)]
pub enum GlobalStyle {
    Long,
    Short,
    Narrow,
    Digital,
}

/// The text given for the formatter's style names no style.
#[derive(Clone, Copy, Debug, PartialEq, Eq, Structural)]
pub struct ParseGlobalStyleError;

impl ParseGlobalStyleError {
    /// What to tell the caller.
    pub fn message(&self) -> (text: &'static str)
        ensures
            text@ == "provided string was not a valid style option"@,
    {
        "provided string was not a valid style option"
    }
}

/// The style asked for the formatter: `short` where the key `style` is not
/// set, an error where the text under it names no style.
pub open spec fn requested_style(text: TextMap) -> Result<GlobalStyle, Error> {
    match lookup(text, "style"@) {
        None => Ok(GlobalStyle::Short),
        Some(given) => match GlobalStyle::parse(given) {
            None => Err(Error::InvalidStyle),
            Some(style) => Ok(style),
        },
    }
}

impl Default for GlobalStyle {
    fn default() -> (style: Self)
        ensures
            style == GlobalStyle::Short,
    {
        GlobalStyle::Short
    }
}

impl GlobalStyle {
    /// The style that a piece of text names, if it names one.
    pub open spec fn parse(text: Seq<char>) -> Option<GlobalStyle> {
        if text == "long"@ {
            Some(GlobalStyle::Long)
        } else if text == "short"@ {
            Some(GlobalStyle::Short)
        } else if text == "narrow"@ {
            Some(GlobalStyle::Narrow)
        } else if text == "digital"@ {
            Some(GlobalStyle::Digital)
        } else {
            None
        }
    }

    /// Reads a style name: `long`, `short`, `narrow` or `digital`.
    pub fn from_str(s: &str) -> (parsed: Result<Self, ParseGlobalStyleError>)
        ensures
            parsed == (match Self::parse(s@) {
                Some(style) => Ok(style),
                None => Err(ParseGlobalStyleError),
            }),
    {
        if text_eq(s, "long") {
            Ok(GlobalStyle::Long)
        } else if text_eq(s, "short") {
            Ok(GlobalStyle::Short)
        } else if text_eq(s, "narrow") {
            Ok(GlobalStyle::Narrow)
        } else if text_eq(s, "digital") {
            Ok(GlobalStyle::Digital)
        } else {
            Err(ParseGlobalStyleError)
        }
    }

    /// Reads the style asked for the formatter.
    pub fn from_options(options: &Options) -> (style: Result<GlobalStyle, Error>)
        ensures
            style == requested_style(options@.text),
    {
        match options.get("style") {
            None => Ok(GlobalStyle::Short),
            Some(given) => match GlobalStyle::from_str(given) {
                Err(_) => Err(Error::InvalidStyle),
                Ok(style) => Ok(style),
            },
        }
    }

    /// The unit style of the same name. `Digital` names no unit style: each
    /// unit has a digital default of its own instead.
    pub open spec fn unit_style(self) -> Option<Style> {
        match self {
            GlobalStyle::Long => Some(Style::Long),
            GlobalStyle::Short => Some(Style::Short),
            GlobalStyle::Narrow => Some(Style::Narrow),
            GlobalStyle::Digital => None,
        }
    }

    /// The unit style of the same name, for one of the three styles that
    /// have one.
    pub fn into_style(self) -> (style: Style)
        requires
            self != GlobalStyle::Digital,
        ensures
            self.unit_style() == Some(style),
    {
        match self {
            GlobalStyle::Long => Style::Long,
            GlobalStyle::Short => Style::Short,
            _ => Style::Narrow,
        }
    }
}

/// The style one unit is written in.
#[derive(Clone, Copy, Debug, PartialEq, Eq, Structural)]
pub enum Style {
    Long,
    Short,
    Narrow,
    Numeric,
    TwoDigit,
    Fractional,
}

/// The text given for a unit's style names no style.
#[derive(Clone, Copy, Debug, PartialEq, Eq, Structural)]
pub struct ParseStyleError;

impl ParseStyleError {
    /// What to tell the caller.
    pub fn message(&self) -> (text: &'static str)
        ensures
            text@ == "provided string was not a valid style option"@,
    {
        "provided string was not a valid style option"
    }
}

impl Style {
    /// The style that a piece of text names, if it names one.
    pub open spec fn parse(text: Seq<char>) -> Option<Style> {
        if text == "long"@ {
            Some(Style::Long)
        } else if text == "short"@ {
            Some(Style::Short)
        } else if text == "narrow"@ {
            Some(Style::Narrow)
        } else if text == "numeric"@ {
            Some(Style::Numeric)
        } else if text == "2-digit"@ {
            Some(Style::TwoDigit)
        } else if text == "fractional"@ {
            Some(Style::Fractional)
        } else {
            None
        }
    }

    /// Reads a style name: `long`, `short`, `narrow`, `numeric`, `2-digit`
    /// or `fractional`.
    pub fn from_str(s: &str) -> (parsed: Result<Self, ParseStyleError>)
        ensures
            parsed == (match Self::parse(s@) {
                Some(style) => Ok(style),
                None => Err(ParseStyleError),
            }),
    {
        if text_eq(s, "long") {
            Ok(Style::Long)
        } else if text_eq(s, "short") {
            Ok(Style::Short)
        } else if text_eq(s, "narrow") {
            Ok(Style::Narrow)
        } else if text_eq(s, "numeric") {
            Ok(Style::Numeric)
        } else if text_eq(s, "2-digit") {
            Ok(Style::TwoDigit)
        } else if text_eq(s, "fractional") {
            Ok(Style::Fractional)
        } else {
            Err(ParseStyleError)
        }
    }

    /// Whether the style writes the value as a number: `numeric`, `2-digit`
    /// or `fractional`.
    pub open spec fn is_numeric_like(self) -> bool {
        self == Style::Numeric || self == Style::TwoDigit || self == Style::Fractional
    }
}

/// Which styles a unit accepts.
#[derive(Clone, Copy, Debug, PartialEq, Eq, Structural)]
pub enum StylesList {
    Base,
    Digital,
    Fractional,
}

/// The three styles every unit accepts.
pub open spec fn base_style_seq() -> Seq<Style> {
    seq![Style::Long, Style::Short, Style::Narrow]
}

impl StylesList {
    /// The styles of the list, in order.
    pub open spec fn styles(self) -> Seq<Style> {
        match self {
            StylesList::Base => base_style_seq(),
            StylesList::Digital => base_style_seq() + seq![Style::Numeric, Style::TwoDigit],
            StylesList::Fractional => base_style_seq() + seq![Style::Fractional],
        }
    }

    /// Whether the list holds a style.
    pub open spec fn allows(self, style: Style) -> bool {
        match style {
            Style::Long | Style::Short | Style::Narrow => true,
            Style::Numeric | Style::TwoDigit => self == StylesList::Digital,
            Style::Fractional => self == StylesList::Fractional,
        }
    }

    /// A list holds exactly the styles it allows.
    pub proof fn lemma_allows_is_membership(self, style: Style)
        ensures
            self.styles().contains(style) <==> self.allows(style),
    {
        let s = self.styles();
        assert(s[0] == Style::Long && s[1] == Style::Short && s[2] == Style::Narrow);
        match self {
            StylesList::Base => {},
            StylesList::Digital => {
                assert(s[3] == Style::Numeric && s[4] == Style::TwoDigit);
            },
            StylesList::Fractional => {
                assert(s[3] == Style::Fractional);
            },
        }
    }

    /// The styles of the list, in order.
    pub fn list(self) -> (styles: Vec<Style>)
        ensures
            styles@ == self.styles(),
    {
        match self {
            StylesList::Base => base_styles(),
            StylesList::Digital => digital_styles(),
            StylesList::Fractional => fractional_styles(),
        }
    }
}

/// `long`, `short` and `narrow`: what every unit accepts.
pub fn base_styles() -> (styles: Vec<Style>)
    ensures
        styles@ == base_style_seq(),
{
    let mut styles: Vec<Style> = Vec::new();
    styles.push(Style::Long);
    styles.push(Style::Short);
    styles.push(Style::Narrow);
    assert(styles@ =~= base_style_seq());
    styles
}

/// The base styles, then `numeric` and `2-digit`: what hours, minutes and
/// seconds accept.
pub fn digital_styles() -> (styles: Vec<Style>)
    ensures
        styles@ == StylesList::Digital.styles(),
{
    let mut styles = base_styles();
    styles.push(Style::Numeric);
    styles.push(Style::TwoDigit);
    assert(styles@ =~= StylesList::Digital.styles());
    styles
}

/// The base styles, then `fractional`: what the units below a second accept.
pub fn fractional_styles() -> (styles: Vec<Style>)
    ensures
        styles@ == StylesList::Fractional.styles(),
{
    let mut styles = base_styles();
    styles.push(Style::Fractional);
    assert(styles@ =~= StylesList::Fractional.styles());
    styles
}

/// Whether a list of styles holds one.
pub fn styles_contain(styles: &Vec<Style>, style: Style) -> (found: bool)
    ensures
        found == styles@.contains(style),
{
    let mut i: usize = 0;
    while i < styles.len()
        invariant
            i <= styles.len(),
            forall|j: int| 0 <= j < i ==> styles@[j] != style,
        decreases styles.len() - i,
    {
        if styles[i] == style {
            return true;
        }
        i += 1;
    }
    false
}

/// Whether a unit whose value is zero is still written.
#[derive(Clone, Copy, Debug, PartialEq, Eq, Structural)]
pub enum Display {
    Auto,
    Always,
}

/// The text given for a unit's display names none.
#[derive(Clone, Copy, Debug, PartialEq, Eq, Structural)]
pub struct ParseDisplayError;

impl ParseDisplayError {
    /// What to tell the caller.
    pub fn message(&self) -> (text: &'static str)
        ensures
            text@ == "provided string was not a valid display option"@,
    {
        "provided string was not a valid display option"
    }
}

impl Display {
    /// The display that a piece of text names, if it names one.
    pub open spec fn parse(text: Seq<char>) -> Option<Display> {
        if text == "auto"@ {
            Some(Display::Auto)
        } else if text == "always"@ {
            Some(Display::Always)
        } else {
            None
        }
    }

    /// Reads a display name: `auto` or `always`.
    pub fn from_str(s: &str) -> (parsed: Result<Self, ParseDisplayError>)
        ensures
            parsed == (match Self::parse(s@) {
                Some(display) => Ok(display),
                None => Err(ParseDisplayError),
            }),
    {
        if text_eq(s, "auto") {
            Ok(Display::Auto)
        } else if text_eq(s, "always") {
            Ok(Display::Always)
        } else {
            Err(ParseDisplayError)
        }
    }
}

} // verus!
