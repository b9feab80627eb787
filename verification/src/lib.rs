//! Builds the template of a format spec from typed directives.
//!
//! A [`FormatterBuilder`] collects the directives of one rendering: sign,
//! zero-pad, alternate form, fill, alignment, width and precision. It
//! compiles to a [`Template`]: one literal out of a fixed table, such as
//! `{:0>+3}` written with a named width, `{:0>+width$}`, and the values
//! bound to the named parameters `width` and `precision`.

pub mod adapter;
pub mod builder;
pub mod directive;
pub mod laws;
mod table;
pub mod template;

pub use adapter::FormatWith;
pub use builder::FormatterBuilder;
pub use directive::{Alignment, Fill, Setting, Sign};
pub use template::Template;
