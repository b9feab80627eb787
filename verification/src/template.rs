//! Compiles a directive set into its format-spec template.
//!
//! A template is the text `{:` followed by one fragment per directive and a
//! closing `}`. The fragments stand in the order that a format spec demands:
//! fill and alignment, sign, alternate, zero-pad, width, precision. A
//! directive that is not set contributes the empty fragment.

use vstd::prelude::*;
use crate::builder::FormatterBuilder;
use crate::directive::{Alignment, Fill, Sign};
use crate::laws::{lemma_precision_fragment_iff_set, lemma_width_fragment_iff_set};
use crate::table::lookup;

verus! {

/// The fragment of a fill: its character, or nothing.
pub open spec fn fill_fragment(fill: Option<Fill>) -> Seq<char> {
    match fill {
        Some(fill) => seq![fill.spec_char()],
        None => Seq::empty(),
    }
}

/// The fragment of an alignment: its character, or nothing.
pub open spec fn alignment_fragment(align: Option<Alignment>) -> Seq<char> {
    match align {
        Some(align) => seq![align.spec_char()],
        None => Seq::empty(),
    }
}

/// The fragment of fill and alignment: the fill's fragment before the
/// alignment's, or nothing where no alignment is set.
pub open spec fn fill_align_fragment(fill_align: Option<(Option<Fill>, Alignment)>) -> Seq<char> {
    match fill_align {
        Some((fill, align)) => fill_fragment(fill) + alignment_fragment(Some(align)),
        None => Seq::empty(),
    }
}

/// The fragment of the sign flag.
pub open spec fn sign_fragment(sign: Option<Sign>) -> Seq<char> {
    match sign {
        Some(sign) => seq![sign.spec_char()],
        None => Seq::empty(),
    }
}

/// The fragment of the alternate flag.
pub open spec fn alternate_fragment(alternate: bool) -> Seq<char> {
    if alternate {
        seq!['#']
    } else {
        Seq::empty()
    }
}

/// The fragment of the zero-pad flag.
pub open spec fn zero_pad_fragment(zero_pad: bool) -> Seq<char> {
    if zero_pad {
        seq!['0']
    } else {
        Seq::empty()
    }
}

/// The fragment of the width: a reference to the named parameter `width`
/// where a width is set, whatever its value.
pub open spec fn width_fragment(present: bool) -> Seq<char> {
    if present {
        seq!['w', 'i', 'd', 't', 'h', '$']
    } else {
        Seq::empty()
    }
}

/// The fragment of the precision: a dot and a reference to the named
/// parameter `precision` where a precision is set, whatever its value.
pub open spec fn precision_fragment(present: bool) -> Seq<char> {
    if present {
        seq!['.', 'p', 'r', 'e', 'c', 'i', 's', 'i', 'o', 'n', '$']
    } else {
        Seq::empty()
    }
}

/// A template body between the opening `{:` and the closing `}`.
pub open spec fn framed(body: Seq<char>) -> Seq<char> {
    seq!['{', ':'] + body + seq!['}']
}

/// The template of one combination of directive states.
pub open spec fn template_of(
    fill_align: Option<(Option<Fill>, Alignment)>,
    sign: Option<Sign>,
    alternate: bool,
    zero_pad: bool,
    width: bool,
    precision: bool,
) -> Seq<char> {
    framed(
        fill_align_fragment(fill_align) + sign_fragment(sign) + alternate_fragment(alternate)
            + zero_pad_fragment(zero_pad) + width_fragment(width) + precision_fragment(precision),
    )
}

/// The value bound to a named parameter of the template: the directive's
/// number, and nothing where the directive is not set.
pub open spec fn binding_of(value: Option<u16>) -> Option<usize> {
    match value {
        Some(n) => Some(n as usize),
        None => None,
    }
}

/// A compiled directive set: the template text and the values of its named
/// parameters `width` and `precision`.
#[derive(Clone, Copy, Debug)]
pub struct Template {
    pub text: &'static str,
    pub width: Option<usize>,
    pub precision: Option<usize>,
}

impl FormatterBuilder {
    /// The template text that this directive set compiles to.
    pub open spec fn spec_template(self) -> Seq<char> {
        template_of(
            self.fill_align,
            self.sign,
            self.alternate,
            self.sign_aware_zero_pad,
            self.width is Some,
            self.precision is Some,
        )
    }

    /// Returns the template text of this directive set, one of a fixed table
    /// of literals.
    pub fn template(&self) -> (text: &'static str)
        ensures
            text@ == self.spec_template(),
    {
        lookup(
            self.fill_align,
            self.sign,
            self.alternate,
            self.sign_aware_zero_pad,
            self.width.is_some(),
            self.precision.is_some(),
        )
    }

    /// Compiles this directive set: the template text, and a binding for
    /// each of `width` and `precision` exactly where the directive is set,
    /// which is where the text refers to the parameter.
    pub fn compile(&self) -> (compiled: Template)
        ensures
            compiled.text@ == self.spec_template(),
            compiled.width == binding_of(self.width),
            compiled.precision == binding_of(self.precision),
            compiled.width is Some <==> compiled.text@.contains('w'),
            compiled.precision is Some <==> compiled.text@.contains('.'),
    {
        proof {
            lemma_width_fragment_iff_set(*self);
            lemma_precision_fragment_iff_set(*self);
        }
        let width = match self.width {
            Some(n) => Some(n as usize),
            None => None,
        };
        let precision = match self.precision {
            Some(n) => Some(n as usize),
            None => None,
        };
        Template { text: self.template(), width, precision }
    }
}

} // verus!
