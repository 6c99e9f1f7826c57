//! Option resolution for a localized duration formatter.
//!
//! A caller hands in the options it was configured with, as text, and the
//! locale that was negotiated for it. The crate resolves them into one
//! consistent set of directives for the ten units of a duration, from years
//! down to nanoseconds, or reports why the combination is not acceptable.

pub mod error;
pub mod format;
pub mod locale;
pub mod options;
pub mod style;
pub mod text;
pub mod unit;
pub mod unit_options;

pub use error::{Error, ErrorKind};
pub use format::{fractional_digits_from_options, DurationFormat};
pub use locale::{
    numbering_system_from_options, select_numbering_system, DurationFormatLocaleOptions,
};
pub use options::{Options, OptionsView, TextMap};
pub use style::{
    base_styles, digital_styles, fractional_styles, styles_contain, Display, GlobalStyle,
    ParseDisplayError, ParseGlobalStyleError, ParseStyleError, Style, StylesList,
};
pub use text::text_eq;
pub use unit::{Unit, UNIT_COUNT};
pub use unit_options::{DurationUnitOptions, UnitOptions};
