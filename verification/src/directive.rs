//! The closed vocabulary of rendering directives.

use vstd::prelude::*;

verus! {

/// The sign flag of a format spec.
#[derive(Copy, Clone, Debug, PartialEq, Eq, Structural)]
pub enum Sign {
    /// The `+` flag.
    Plus,
    /// The `-` flag.
    Minus,
}

/// The fill character of a format spec; only these two are supported.
#[derive(Copy, Clone, Debug, PartialEq, Eq, Structural)]
pub enum Fill {
    /// The character `'0'`.
    Zero,
    /// The character `' '`.
    Space,
}

/// Where a value sits inside its padded field.
#[derive(Copy, Clone, Debug, PartialEq, Eq, Structural)]
pub enum Alignment {
    /// The `<` flag.
    Left,
    /// The `>` flag.
    Right,
    /// The `^` flag.
    Center,
}

impl Sign {
    /// The character that writes this flag in a format spec.
    pub open spec fn spec_char(self) -> char {
        match self {
            Sign::Plus => '+',
            Sign::Minus => '-',
        }
    }
}

impl Fill {
    /// The character this fill stands for.
    pub open spec fn spec_char(self) -> char {
        match self {
            Fill::Zero => '0',
            Fill::Space => ' ',
        }
    }

    /// Returns the fill character.
    pub fn as_char(self) -> (c: char)
        ensures
            c == self.spec_char(),
    {
        match self {
            Fill::Zero => '0',
            Fill::Space => ' ',
        }
    }
}

impl Alignment {
    /// The character that writes this flag in a format spec.
    pub open spec fn spec_char(self) -> char {
        match self {
            Alignment::Left => '<',
            Alignment::Right => '>',
            Alignment::Center => '^',
        }
    }
}

/// A setter argument: either a directive value or an explicit "unset".
///
/// A bare value sets the directive, `Some(v)` sets it too, `None` clears it.
pub trait Setting<T>: Sized {
    /// The optional directive value that this argument stands for.
    spec fn setting(self) -> Option<T>;

    /// Turns the argument into the optional directive value.
    fn into_setting(self) -> (value: Option<T>)
        ensures
            value == self.setting(),
    ;
}

impl<T> Setting<T> for T {
    open spec fn setting(self) -> Option<T> {
        Some(self)
    }

    fn into_setting(self) -> (value: Option<T>) {
        Some(self)
    }
}

impl<T> Setting<T> for Option<T> {
    open spec fn setting(self) -> Option<T> {
        self
    }

    fn into_setting(self) -> (value: Option<T>) {
        self
    }
}

} // verus!
