//! The directive set and its fluent setters.

use vstd::prelude::*;
use crate::directive::{Alignment, Fill, Setting, Sign};

verus! {

/// The set of directives requested for one rendering.
///
/// A fill is stored only together with an alignment: `fill_align` is `None`
/// while no alignment is set, and otherwise pairs the optional fill with the
/// alignment.
#[derive(Debug)]
pub struct FormatterBuilder {
    pub sign: Option<Sign>,
    pub sign_aware_zero_pad: bool,
    pub alternate: bool,
    pub fill_align: Option<(Option<Fill>, Alignment)>,
    pub width: Option<u16>,
    pub precision: Option<u16>,
}

impl FormatterBuilder {
    /// The directive set in which nothing is set.
    pub open spec fn empty() -> Self {
        FormatterBuilder {
            sign: None,
            sign_aware_zero_pad: false,
            alternate: false,
            fill_align: None,
            width: None,
            precision: None,
        }
    }

    /// The alignment, if one is set.
    pub open spec fn alignment(self) -> Option<Alignment> {
        match self.fill_align {
            Some((_, align)) => Some(align),
            None => None,
        }
    }

    /// The fill, if an alignment and a fill are set.
    pub open spec fn fill_value(self) -> Option<Fill> {
        match self.fill_align {
            Some((fill, _)) => fill,
            None => None,
        }
    }

    /// This directive set with the sign replaced.
    pub open spec fn with_sign(self, sign: Option<Sign>) -> Self {
        FormatterBuilder { sign, ..self }
    }

    /// This directive set with the zero-pad flag replaced.
    pub open spec fn with_sign_aware_zero_pad(self, sign_aware_zero_pad: bool) -> Self {
        FormatterBuilder { sign_aware_zero_pad, ..self }
    }

    /// This directive set with the alternate flag replaced.
    pub open spec fn with_alternate(self, alternate: bool) -> Self {
        FormatterBuilder { alternate, ..self }
    }

    /// This directive set with the fill replaced. Without an alignment there
    /// is no slot for a fill, and the set is unchanged.
    pub open spec fn with_fill(self, fill: Option<Fill>) -> Self {
        match self.fill_align {
            Some((_, align)) => FormatterBuilder { fill_align: Some((fill, align)), ..self },
            None => self,
        }
    }

    /// This directive set with the alignment replaced. A new alignment keeps
    /// the fill that was paired with the old one; clearing the alignment
    /// clears the fill with it.
    pub open spec fn with_align(self, align: Option<Alignment>) -> Self {
        match align {
            Some(align) => FormatterBuilder {
                fill_align: Some((self.fill_value(), align)),
                ..self
            },
            None => FormatterBuilder { fill_align: None, ..self },
        }
    }

    /// This directive set with the width replaced.
    pub open spec fn with_width(self, width: Option<u16>) -> Self {
        FormatterBuilder { width, ..self }
    }

    /// This directive set with the precision replaced.
    pub open spec fn with_precision(self, precision: Option<u16>) -> Self {
        FormatterBuilder { precision, ..self }
    }

    /// A builder with no directive set.
    pub fn new() -> (builder: Self)
        ensures
            builder == Self::empty(),
    {
        Self::default()
    }

    /// Sets the sign flag, as `{:+}` and `{:-}` do; `None` clears it.
    pub fn sign(&mut self, sign: impl Setting<Sign>) -> (chain: &mut Self)
        ensures
            *chain == old(self).with_sign(sign.setting()),
            *final(self) == *final(chain),
    {
        self.sign = sign.into_setting();
        self
    }

    /// Sets the zero-pad flag, as `{:0}` does.
    pub fn sign_aware_zero_pad(&mut self, sign_aware_zero_pad: bool) -> (chain: &mut Self)
        ensures
            *chain == old(self).with_sign_aware_zero_pad(sign_aware_zero_pad),
            *final(self) == *final(chain),
    {
        self.sign_aware_zero_pad = sign_aware_zero_pad;
        self
    }

    /// Sets the alternate flag, as `{:#}` does.
    pub fn alternate(&mut self, alternate: bool) -> (chain: &mut Self)
        ensures
            *chain == old(self).with_alternate(alternate),
            *final(self) == *final(chain),
    {
        self.alternate = alternate;
        self
    }

    /// Sets the fill character, as `{:0>}` and `{: ^}` do; `None` clears it.
    ///
    /// A fill needs an alignment to go with: giving a fill value while no
    /// alignment is set is a caller's error. Clearing the fill of a builder
    /// without alignment changes nothing.
    pub fn fill(&mut self, fill: impl Setting<Fill>) -> (chain: &mut Self)
        requires
            fill.setting() is Some ==> old(self).fill_align is Some,
        ensures
            *chain == old(self).with_fill(fill.setting()),
            *final(self) == *final(chain),
    {
        let fill = fill.into_setting();
        match self.fill_align {
            Some((_, align)) => {
                self.fill_align = Some((fill, align));
            },
            None => {},
        }
        self
    }

    /// Sets the alignment, as `{:<}`, `{:^}` and `{:>}` do; `None` clears it,
    /// and the fill with it.
    pub fn align(&mut self, align: impl Setting<Alignment>) -> (chain: &mut Self)
        ensures
            *chain == old(self).with_align(align.setting()),
            *final(self) == *final(chain),
    {
        match align.into_setting() {
            Some(align) => {
                let fill = match self.fill_align {
                    Some((fill, _)) => fill,
                    None => None,
                };
                self.fill_align = Some((fill, align));
            },
            None => {
                self.fill_align = None;
            },
        }
        self
    }

    /// Sets the width, as `{:3}` does; `None` clears it.
    pub fn width(&mut self, width: impl Setting<u16>) -> (chain: &mut Self)
        ensures
            *chain == old(self).with_width(width.setting()),
            *final(self) == *final(chain),
    {
        self.width = width.into_setting();
        self
    }

    /// Sets the precision, as `{:.3}` does; `None` clears it.
    pub fn precision(&mut self, precision: impl Setting<u16>) -> (chain: &mut Self)
        ensures
            *chain == old(self).with_precision(precision.setting()),
            *final(self) == *final(chain),
    {
        self.precision = precision.into_setting();
        self
    }
}

impl Default for FormatterBuilder {
    fn default() -> (builder: Self)
        ensures
            builder == Self::empty(),
    {
        FormatterBuilder {
            sign: None,
            sign_aware_zero_pad: false,
            alternate: false,
            fill_align: None,
            width: None,
            precision: None,
        }
    }
}

} // verus!
