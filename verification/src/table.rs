//! The table of templates: one literal for each combination of directive
//! states, in one section for each state of fill and alignment.

use vstd::prelude::*;
use crate::directive::{Alignment, Fill, Sign};
use crate::template::template_of;

verus! {

/// Looks up the template of a combination of directive states.
pub(crate) fn lookup(
    fill_align: Option<(Option<Fill>, Alignment)>,
    sign: Option<Sign>,
    alternate: bool,
    zero_pad: bool,
    width: bool,
    precision: bool,
) -> (text: &'static str)
    ensures
        text@ == template_of(fill_align, sign, alternate, zero_pad, width, precision),
{
    match fill_align {
        None => unaligned(sign, alternate, zero_pad, width, precision),
        Some((None, Alignment::Left)) => left(sign, alternate, zero_pad, width, precision),
        Some((None, Alignment::Right)) => right(sign, alternate, zero_pad, width, precision),
        Some((None, Alignment::Center)) => center(sign, alternate, zero_pad, width, precision),
        Some((Some(Fill::Zero), Alignment::Left)) => zero_left(sign, alternate, zero_pad, width, precision),
        Some((Some(Fill::Zero), Alignment::Right)) => zero_right(sign, alternate, zero_pad, width, precision),
        Some((Some(Fill::Zero), Alignment::Center)) => zero_center(sign, alternate, zero_pad, width, precision),
        Some((Some(Fill::Space), Alignment::Left)) => space_left(sign, alternate, zero_pad, width, precision),
        Some((Some(Fill::Space), Alignment::Right)) => space_right(sign, alternate, zero_pad, width, precision),
        Some((Some(Fill::Space), Alignment::Center)) => space_center(sign, alternate, zero_pad, width, precision),
    }
}

/// The templates with no alignment.
fn unaligned(sign: Option<Sign>, alternate: bool, zero_pad: bool, width: bool, precision: bool) -> (text:
    &'static str)
    ensures
        text@ == template_of(None, sign, alternate, zero_pad, width, precision),
{
    match (sign, alternate, zero_pad, width, precision) {
        (None, false, false, false, false) => { proof { reveal_strlit("{:}"); } "{:}" },
        (None, false, false, false, true) => { proof { reveal_strlit("{:.precision$}"); } "{:.precision$}" },
        (None, false, false, true, false) => { proof { reveal_strlit("{:width$}"); } "{:width$}" },
        (None, false, false, true, true) => { proof { reveal_strlit("{:width$.precision$}"); } "{:width$.precision$}" },
        (None, false, true, false, false) => { proof { reveal_strlit("{:0}"); } "{:0}" },
        (None, false, true, false, true) => { proof { reveal_strlit("{:0.precision$}"); } "{:0.precision$}" },
        (None, false, true, true, false) => { proof { reveal_strlit("{:0width$}"); } "{:0width$}" },
        (None, false, true, true, true) => { proof { reveal_strlit("{:0width$.precision$}"); } "{:0width$.precision$}" },
        (None, true, false, false, false) => { proof { reveal_strlit("{:#}"); } "{:#}" },
        (None, true, false, false, true) => { proof { reveal_strlit("{:#.precision$}"); } "{:#.precision$}" },
        (None, true, false, true, false) => { proof { reveal_strlit("{:#width$}"); } "{:#width$}" },
        (None, true, false, true, true) => { proof { reveal_strlit("{:#width$.precision$}"); } "{:#width$.precision$}" },
        (None, true, true, false, false) => { proof { reveal_strlit("{:#0}"); } "{:#0}" },
        (None, true, true, false, true) => { proof { reveal_strlit("{:#0.precision$}"); } "{:#0.precision$}" },
        (None, true, true, true, false) => { proof { reveal_strlit("{:#0width$}"); } "{:#0width$}" },
        (None, true, true, true, true) => { proof { reveal_strlit("{:#0width$.precision$}"); } "{:#0width$.precision$}" },
        (Some(Sign::Plus), false, false, false, false) => { proof { reveal_strlit("{:+}"); } "{:+}" },
        (Some(Sign::Plus), false, false, false, true) => { proof { reveal_strlit("{:+.precision$}"); } "{:+.precision$}" },
        (Some(Sign::Plus), false, false, true, false) => { proof { reveal_strlit("{:+width$}"); } "{:+width$}" },
        (Some(Sign::Plus), false, false, true, true) => { proof { reveal_strlit("{:+width$.precision$}"); } "{:+width$.precision$}" },
        (Some(Sign::Plus), false, true, false, false) => { proof { reveal_strlit("{:+0}"); } "{:+0}" },
        (Some(Sign::Plus), false, true, false, true) => { proof { reveal_strlit("{:+0.precision$}"); } "{:+0.precision$}" },
        (Some(Sign::Plus), false, true, true, false) => { proof { reveal_strlit("{:+0width$}"); } "{:+0width$}" },
        (Some(Sign::Plus), false, true, true, true) => { proof { reveal_strlit("{:+0width$.precision$}"); } "{:+0width$.precision$}" },
        (Some(Sign::Plus), true, false, false, false) => { proof { reveal_strlit("{:+#}"); } "{:+#}" },
        (Some(Sign::Plus), true, false, false, true) => { proof { reveal_strlit("{:+#.precision$}"); } "{:+#.precision$}" },
        (Some(Sign::Plus), true, false, true, false) => { proof { reveal_strlit("{:+#width$}"); } "{:+#width$}" },
        (Some(Sign::Plus), true, false, true, true) => { proof { reveal_strlit("{:+#width$.precision$}"); } "{:+#width$.precision$}" },
        (Some(Sign::Plus), true, true, false, false) => { proof { reveal_strlit("{:+#0}"); } "{:+#0}" },
        (Some(Sign::Plus), true, true, false, true) => { proof { reveal_strlit("{:+#0.precision$}"); } "{:+#0.precision$}" },
        (Some(Sign::Plus), true, true, true, false) => { proof { reveal_strlit("{:+#0width$}"); } "{:+#0width$}" },
        (Some(Sign::Plus), true, true, true, true) => { proof { reveal_strlit("{:+#0width$.precision$}"); } "{:+#0width$.precision$}" },
        (Some(Sign::Minus), false, false, false, false) => { proof { reveal_strlit("{:-}"); } "{:-}" },
        (Some(Sign::Minus), false, false, false, true) => { proof { reveal_strlit("{:-.precision$}"); } "{:-.precision$}" },
        (Some(Sign::Minus), false, false, true, false) => { proof { reveal_strlit("{:-width$}"); } "{:-width$}" },
        (Some(Sign::Minus), false, false, true, true) => { proof { reveal_strlit("{:-width$.precision$}"); } "{:-width$.precision$}" },
        (Some(Sign::Minus), false, true, false, false) => { proof { reveal_strlit("{:-0}"); } "{:-0}" },
        (Some(Sign::Minus), false, true, false, true) => { proof { reveal_strlit("{:-0.precision$}"); } "{:-0.precision$}" },
        (Some(Sign::Minus), false, true, true, false) => { proof { reveal_strlit("{:-0width$}"); } "{:-0width$}" },
        (Some(Sign::Minus), false, true, true, true) => { proof { reveal_strlit("{:-0width$.precision$}"); } "{:-0width$.precision$}" },
        (Some(Sign::Minus), true, false, false, false) => { proof { reveal_strlit("{:-#}"); } "{:-#}" },
        (Some(Sign::Minus), true, false, false, true) => { proof { reveal_strlit("{:-#.precision$}"); } "{:-#.precision$}" },
        (Some(Sign::Minus), true, false, true, false) => { proof { reveal_strlit("{:-#width$}"); } "{:-#width$}" },
        (Some(Sign::Minus), true, false, true, true) => { proof { reveal_strlit("{:-#width$.precision$}"); } "{:-#width$.precision$}" },
        (Some(Sign::Minus), true, true, false, false) => { proof { reveal_strlit("{:-#0}"); } "{:-#0}" },
        (Some(Sign::Minus), true, true, false, true) => { proof { reveal_strlit("{:-#0.precision$}"); } "{:-#0.precision$}" },
        (Some(Sign::Minus), true, true, true, false) => { proof { reveal_strlit("{:-#0width$}"); } "{:-#0width$}" },
        (Some(Sign::Minus), true, true, true, true) => { proof { reveal_strlit("{:-#0width$.precision$}"); } "{:-#0width$.precision$}" },
    }
}

/// The templates with no fill, alignment `<`.
fn left(sign: Option<Sign>, alternate: bool, zero_pad: bool, width: bool, precision: bool) -> (text:
    &'static str)
    ensures
        text@ == template_of(Some((None, Alignment::Left)), sign, alternate, zero_pad, width, precision),
{
    match (sign, alternate, zero_pad, width, precision) {
        (None, false, false, false, false) => { proof { reveal_strlit("{:<}"); } "{:<}" },
        (None, false, false, false, true) => { proof { reveal_strlit("{:<.precision$}"); } "{:<.precision$}" },
        (None, false, false, true, false) => { proof { reveal_strlit("{:<width$}"); } "{:<width$}" },
        (None, false, false, true, true) => { proof { reveal_strlit("{:<width$.precision$}"); } "{:<width$.precision$}" },
        (None, false, true, false, false) => { proof { reveal_strlit("{:<0}"); } "{:<0}" },
        (None, false, true, false, true) => { proof { reveal_strlit("{:<0.precision$}"); } "{:<0.precision$}" },
        (None, false, true, true, false) => { proof { reveal_strlit("{:<0width$}"); } "{:<0width$}" },
        (None, false, true, true, true) => { proof { reveal_strlit("{:<0width$.precision$}"); } "{:<0width$.precision$}" },
        (None, true, false, false, false) => { proof { reveal_strlit("{:<#}"); } "{:<#}" },
        (None, true, false, false, true) => { proof { reveal_strlit("{:<#.precision$}"); } "{:<#.precision$}" },
        (None, true, false, true, false) => { proof { reveal_strlit("{:<#width$}"); } "{:<#width$}" },
        (None, true, false, true, true) => { proof { reveal_strlit("{:<#width$.precision$}"); } "{:<#width$.precision$}" },
        (None, true, true, false, false) => { proof { reveal_strlit("{:<#0}"); } "{:<#0}" },
        (None, true, true, false, true) => { proof { reveal_strlit("{:<#0.precision$}"); } "{:<#0.precision$}" },
        (None, true, true, true, false) => { proof { reveal_strlit("{:<#0width$}"); } "{:<#0width$}" },
        (None, true, true, true, true) => { proof { reveal_strlit("{:<#0width$.precision$}"); } "{:<#0width$.precision$}" },
        (Some(Sign::Plus), false, false, false, false) => { proof { reveal_strlit("{:<+}"); } "{:<+}" },
        (Some(Sign::Plus), false, false, false, true) => { proof { reveal_strlit("{:<+.precision$}"); } "{:<+.precision$}" },
        (Some(Sign::Plus), false, false, true, false) => { proof { reveal_strlit("{:<+width$}"); } "{:<+width$}" },
        (Some(Sign::Plus), false, false, true, true) => { proof { reveal_strlit("{:<+width$.precision$}"); } "{:<+width$.precision$}" },
        (Some(Sign::Plus), false, true, false, false) => { proof { reveal_strlit("{:<+0}"); } "{:<+0}" },
        (Some(Sign::Plus), false, true, false, true) => { proof { reveal_strlit("{:<+0.precision$}"); } "{:<+0.precision$}" },
        (Some(Sign::Plus), false, true, true, false) => { proof { reveal_strlit("{:<+0width$}"); } "{:<+0width$}" },
        (Some(Sign::Plus), false, true, true, true) => { proof { reveal_strlit("{:<+0width$.precision$}"); } "{:<+0width$.precision$}" },
        (Some(Sign::Plus), true, false, false, false) => { proof { reveal_strlit("{:<+#}"); } "{:<+#}" },
        (Some(Sign::Plus), true, false, false, true) => { proof { reveal_strlit("{:<+#.precision$}"); } "{:<+#.precision$}" },
        (Some(Sign::Plus), true, false, true, false) => { proof { reveal_strlit("{:<+#width$}"); } "{:<+#width$}" },
        (Some(Sign::Plus), true, false, true, true) => { proof { reveal_strlit("{:<+#width$.precision$}"); } "{:<+#width$.precision$}" },
        (Some(Sign::Plus), true, true, false, false) => { proof { reveal_strlit("{:<+#0}"); } "{:<+#0}" },
        (Some(Sign::Plus), true, true, false, true) => { proof { reveal_strlit("{:<+#0.precision$}"); } "{:<+#0.precision$}" },
        (Some(Sign::Plus), true, true, true, false) => { proof { reveal_strlit("{:<+#0width$}"); } "{:<+#0width$}" },
        (Some(Sign::Plus), true, true, true, true) => { proof { reveal_strlit("{:<+#0width$.precision$}"); } "{:<+#0width$.precision$}" },
        (Some(Sign::Minus), false, false, false, false) => { proof { reveal_strlit("{:<-}"); } "{:<-}" },
        (Some(Sign::Minus), false, false, false, true) => { proof { reveal_strlit("{:<-.precision$}"); } "{:<-.precision$}" },
        (Some(Sign::Minus), false, false, true, false) => { proof { reveal_strlit("{:<-width$}"); } "{:<-width$}" },
        (Some(Sign::Minus), false, false, true, true) => { proof { reveal_strlit("{:<-width$.precision$}"); } "{:<-width$.precision$}" },
        (Some(Sign::Minus), false, true, false, false) => { proof { reveal_strlit("{:<-0}"); } "{:<-0}" },
        (Some(Sign::Minus), false, true, false, true) => { proof { reveal_strlit("{:<-0.precision$}"); } "{:<-0.precision$}" },
        (Some(Sign::Minus), false, true, true, false) => { proof { reveal_strlit("{:<-0width$}"); } "{:<-0width$}" },
        (Some(Sign::Minus), false, true, true, true) => { proof { reveal_strlit("{:<-0width$.precision$}"); } "{:<-0width$.precision$}" },
        (Some(Sign::Minus), true, false, false, false) => { proof { reveal_strlit("{:<-#}"); } "{:<-#}" },
        (Some(Sign::Minus), true, false, false, true) => { proof { reveal_strlit("{:<-#.precision$}"); } "{:<-#.precision$}" },
        (Some(Sign::Minus), true, false, true, false) => { proof { reveal_strlit("{:<-#width$}"); } "{:<-#width$}" },
        (Some(Sign::Minus), true, false, true, true) => { proof { reveal_strlit("{:<-#width$.precision$}"); } "{:<-#width$.precision$}" },
        (Some(Sign::Minus), true, true, false, false) => { proof { reveal_strlit("{:<-#0}"); } "{:<-#0}" },
        (Some(Sign::Minus), true, true, false, true) => { proof { reveal_strlit("{:<-#0.precision$}"); } "{:<-#0.precision$}" },
        (Some(Sign::Minus), true, true, true, false) => { proof { reveal_strlit("{:<-#0width$}"); } "{:<-#0width$}" },
        (Some(Sign::Minus), true, true, true, true) => { proof { reveal_strlit("{:<-#0width$.precision$}"); } "{:<-#0width$.precision$}" },
    }
}

/// The templates with no fill, alignment `>`.
fn right(sign: Option<Sign>, alternate: bool, zero_pad: bool, width: bool, precision: bool) -> (text:
    &'static str)
    ensures
        text@ == template_of(Some((None, Alignment::Right)), sign, alternate, zero_pad, width, precision),
{
    match (sign, alternate, zero_pad, width, precision) {
        (None, false, false, false, false) => { proof { reveal_strlit("{:>}"); } "{:>}" },
        (None, false, false, false, true) => { proof { reveal_strlit("{:>.precision$}"); } "{:>.precision$}" },
        (None, false, false, true, false) => { proof { reveal_strlit("{:>width$}"); } "{:>width$}" },
        (None, false, false, true, true) => { proof { reveal_strlit("{:>width$.precision$}"); } "{:>width$.precision$}" },
        (None, false, true, false, false) => { proof { reveal_strlit("{:>0}"); } "{:>0}" },
        (None, false, true, false, true) => { proof { reveal_strlit("{:>0.precision$}"); } "{:>0.precision$}" },
        (None, false, true, true, false) => { proof { reveal_strlit("{:>0width$}"); } "{:>0width$}" },
        (None, false, true, true, true) => { proof { reveal_strlit("{:>0width$.precision$}"); } "{:>0width$.precision$}" },
        (None, true, false, false, false) => { proof { reveal_strlit("{:>#}"); } "{:>#}" },
        (None, true, false, false, true) => { proof { reveal_strlit("{:>#.precision$}"); } "{:>#.precision$}" },
        (None, true, false, true, false) => { proof { reveal_strlit("{:>#width$}"); } "{:>#width$}" },
        (None, true, false, true, true) => { proof { reveal_strlit("{:>#width$.precision$}"); } "{:>#width$.precision$}" },
        (None, true, true, false, false) => { proof { reveal_strlit("{:>#0}"); } "{:>#0}" },
        (None, true, true, false, true) => { proof { reveal_strlit("{:>#0.precision$}"); } "{:>#0.precision$}" },
        (None, true, true, true, false) => { proof { reveal_strlit("{:>#0width$}"); } "{:>#0width$}" },
        (None, true, true, true, true) => { proof { reveal_strlit("{:>#0width$.precision$}"); } "{:>#0width$.precision$}" },
        (Some(Sign::Plus), false, false, false, false) => { proof { reveal_strlit("{:>+}"); } "{:>+}" },
        (Some(Sign::Plus), false, false, false, true) => { proof { reveal_strlit("{:>+.precision$}"); } "{:>+.precision$}" },
        (Some(Sign::Plus), false, false, true, false) => { proof { reveal_strlit("{:>+width$}"); } "{:>+width$}" },
        (Some(Sign::Plus), false, false, true, true) => { proof { reveal_strlit("{:>+width$.precision$}"); } "{:>+width$.precision$}" },
        (Some(Sign::Plus), false, true, false, false) => { proof { reveal_strlit("{:>+0}"); } "{:>+0}" },
        (Some(Sign::Plus), false, true, false, true) => { proof { reveal_strlit("{:>+0.precision$}"); } "{:>+0.precision$}" },
        (Some(Sign::Plus), false, true, true, false) => { proof { reveal_strlit("{:>+0width$}"); } "{:>+0width$}" },
        (Some(Sign::Plus), false, true, true, true) => { proof { reveal_strlit("{:>+0width$.precision$}"); } "{:>+0width$.precision$}" },
        (Some(Sign::Plus), true, false, false, false) => { proof { reveal_strlit("{:>+#}"); } "{:>+#}" },
        (Some(Sign::Plus), true, false, false, true) => { proof { reveal_strlit("{:>+#.precision$}"); } "{:>+#.precision$}" },
        (Some(Sign::Plus), true, false, true, false) => { proof { reveal_strlit("{:>+#width$}"); } "{:>+#width$}" },
        (Some(Sign::Plus), true, false, true, true) => { proof { reveal_strlit("{:>+#width$.precision$}"); } "{:>+#width$.precision$}" },
        (Some(Sign::Plus), true, true, false, false) => { proof { reveal_strlit("{:>+#0}"); } "{:>+#0}" },
        (Some(Sign::Plus), true, true, false, true) => { proof { reveal_strlit("{:>+#0.precision$}"); } "{:>+#0.precision$}" },
        (Some(Sign::Plus), true, true, true, false) => { proof { reveal_strlit("{:>+#0width$}"); } "{:>+#0width$}" },
        (Some(Sign::Plus), true, true, true, true) => { proof { reveal_strlit("{:>+#0width$.precision$}"); } "{:>+#0width$.precision$}" },
        (Some(Sign::Minus), false, false, false, false) => { proof { reveal_strlit("{:>-}"); } "{:>-}" },
        (Some(Sign::Minus), false, false, false, true) => { proof { reveal_strlit("{:>-.precision$}"); } "{:>-.precision$}" },
        (Some(Sign::Minus), false, false, true, false) => { proof { reveal_strlit("{:>-width$}"); } "{:>-width$}" },
        (Some(Sign::Minus), false, false, true, true) => { proof { reveal_strlit("{:>-width$.precision$}"); } "{:>-width$.precision$}" },
        (Some(Sign::Minus), false, true, false, false) => { proof { reveal_strlit("{:>-0}"); } "{:>-0}" },
        (Some(Sign::Minus), false, true, false, true) => { proof { reveal_strlit("{:>-0.precision$}"); } "{:>-0.precision$}" },
        (Some(Sign::Minus), false, true, true, false) => { proof { reveal_strlit("{:>-0width$}"); } "{:>-0width$}" },
        (Some(Sign::Minus), false, true, true, true) => { proof { reveal_strlit("{:>-0width$.precision$}"); } "{:>-0width$.precision$}" },
        (Some(Sign::Minus), true, false, false, false) => { proof { reveal_strlit("{:>-#}"); } "{:>-#}" },
        (Some(Sign::Minus), true, false, false, true) => { proof { reveal_strlit("{:>-#.precision$}"); } "{:>-#.precision$}" },
        (Some(Sign::Minus), true, false, true, false) => { proof { reveal_strlit("{:>-#width$}"); } "{:>-#width$}" },
        (Some(Sign::Minus), true, false, true, true) => { proof { reveal_strlit("{:>-#width$.precision$}"); } "{:>-#width$.precision$}" },
        (Some(Sign::Minus), true, true, false, false) => { proof { reveal_strlit("{:>-#0}"); } "{:>-#0}" },
        (Some(Sign::Minus), true, true, false, true) => { proof { reveal_strlit("{:>-#0.precision$}"); } "{:>-#0.precision$}" },
        (Some(Sign::Minus), true, true, true, false) => { proof { reveal_strlit("{:>-#0width$}"); } "{:>-#0width$}" },
        (Some(Sign::Minus), true, true, true, true) => { proof { reveal_strlit("{:>-#0width$.precision$}"); } "{:>-#0width$.precision$}" },
    }
}

/// The templates with no fill, alignment `^`.
fn center(sign: Option<Sign>, alternate: bool, zero_pad: bool, width: bool, precision: bool) -> (text:
    &'static str)
    ensures
        text@ == template_of(Some((None, Alignment::Center)), sign, alternate, zero_pad, width, precision),
{
    match (sign, alternate, zero_pad, width, precision) {
        (None, false, false, false, false) => { proof { reveal_strlit("{:^}"); } "{:^}" },
        (None, false, false, false, true) => { proof { reveal_strlit("{:^.precision$}"); } "{:^.precision$}" },
        (None, false, false, true, false) => { proof { reveal_strlit("{:^width$}"); } "{:^width$}" },
        (None, false, false, true, true) => { proof { reveal_strlit("{:^width$.precision$}"); } "{:^width$.precision$}" },
        (None, false, true, false, false) => { proof { reveal_strlit("{:^0}"); } "{:^0}" },
        (None, false, true, false, true) => { proof { reveal_strlit("{:^0.precision$}"); } "{:^0.precision$}" },
        (None, false, true, true, false) => { proof { reveal_strlit("{:^0width$}"); } "{:^0width$}" },
        (None, false, true, true, true) => { proof { reveal_strlit("{:^0width$.precision$}"); } "{:^0width$.precision$}" },
        (None, true, false, false, false) => { proof { reveal_strlit("{:^#}"); } "{:^#}" },
        (None, true, false, false, true) => { proof { reveal_strlit("{:^#.precision$}"); } "{:^#.precision$}" },
        (None, true, false, true, false) => { proof { reveal_strlit("{:^#width$}"); } "{:^#width$}" },
        (None, true, false, true, true) => { proof { reveal_strlit("{:^#width$.precision$}"); } "{:^#width$.precision$}" },
        (None, true, true, false, false) => { proof { reveal_strlit("{:^#0}"); } "{:^#0}" },
        (None, true, true, false, true) => { proof { reveal_strlit("{:^#0.precision$}"); } "{:^#0.precision$}" },
        (None, true, true, true, false) => { proof { reveal_strlit("{:^#0width$}"); } "{:^#0width$}" },
        (None, true, true, true, true) => { proof { reveal_strlit("{:^#0width$.precision$}"); } "{:^#0width$.precision$}" },
        (Some(Sign::Plus), false, false, false, false) => { proof { reveal_strlit("{:^+}"); } "{:^+}" },
        (Some(Sign::Plus), false, false, false, true) => { proof { reveal_strlit("{:^+.precision$}"); } "{:^+.precision$}" },
        (Some(Sign::Plus), false, false, true, false) => { proof { reveal_strlit("{:^+width$}"); } "{:^+width$}" },
        (Some(Sign::Plus), false, false, true, true) => { proof { reveal_strlit("{:^+width$.precision$}"); } "{:^+width$.precision$}" },
        (Some(Sign::Plus), false, true, false, false) => { proof { reveal_strlit("{:^+0}"); } "{:^+0}" },
        (Some(Sign::Plus), false, true, false, true) => { proof { reveal_strlit("{:^+0.precision$}"); } "{:^+0.precision$}" },
        (Some(Sign::Plus), false, true, true, false) => { proof { reveal_strlit("{:^+0width$}"); } "{:^+0width$}" },
        (Some(Sign::Plus), false, true, true, true) => { proof { reveal_strlit("{:^+0width$.precision$}"); } "{:^+0width$.precision$}" },
        (Some(Sign::Plus), true, false, false, false) => { proof { reveal_strlit("{:^+#}"); } "{:^+#}" },
        (Some(Sign::Plus), true, false, false, true) => { proof { reveal_strlit("{:^+#.precision$}"); } "{:^+#.precision$}" },
        (Some(Sign::Plus), true, false, true, false) => { proof { reveal_strlit("{:^+#width$}"); } "{:^+#width$}" },
        (Some(Sign::Plus), true, false, true, true) => { proof { reveal_strlit("{:^+#width$.precision$}"); } "{:^+#width$.precision$}" },
        (Some(Sign::Plus), true, true, false, false) => { proof { reveal_strlit("{:^+#0}"); } "{:^+#0}" },
        (Some(Sign::Plus), true, true, false, true) => { proof { reveal_strlit("{:^+#0.precision$}"); } "{:^+#0.precision$}" },
        (Some(Sign::Plus), true, true, true, false) => { proof { reveal_strlit("{:^+#0width$}"); } "{:^+#0width$}" },
        (Some(Sign::Plus), true, true, true, true) => { proof { reveal_strlit("{:^+#0width$.precision$}"); } "{:^+#0width$.precision$}" },
        (Some(Sign::Minus), false, false, false, false) => { proof { reveal_strlit("{:^-}"); } "{:^-}" },
        (Some(Sign::Minus), false, false, false, true) => { proof { reveal_strlit("{:^-.precision$}"); } "{:^-.precision$}" },
        (Some(Sign::Minus), false, false, true, false) => { proof { reveal_strlit("{:^-width$}"); } "{:^-width$}" },
        (Some(Sign::Minus), false, false, true, true) => { proof { reveal_strlit("{:^-width$.precision$}"); } "{:^-width$.precision$}" },
        (Some(Sign::Minus), false, true, false, false) => { proof { reveal_strlit("{:^-0}"); } "{:^-0}" },
        (Some(Sign::Minus), false, true, false, true) => { proof { reveal_strlit("{:^-0.precision$}"); } "{:^-0.precision$}" },
        (Some(Sign::Minus), false, true, true, false) => { proof { reveal_strlit("{:^-0width$}"); } "{:^-0width$}" },
        (Some(Sign::Minus), false, true, true, true) => { proof { reveal_strlit("{:^-0width$.precision$}"); } "{:^-0width$.precision$}" },
        (Some(Sign::Minus), true, false, false, false) => { proof { reveal_strlit("{:^-#}"); } "{:^-#}" },
        (Some(Sign::Minus), true, false, false, true) => { proof { reveal_strlit("{:^-#.precision$}"); } "{:^-#.precision$}" },
        (Some(Sign::Minus), true, false, true, false) => { proof { reveal_strlit("{:^-#width$}"); } "{:^-#width$}" },
        (Some(Sign::Minus), true, false, true, true) => { proof { reveal_strlit("{:^-#width$.precision$}"); } "{:^-#width$.precision$}" },
        (Some(Sign::Minus), true, true, false, false) => { proof { reveal_strlit("{:^-#0}"); } "{:^-#0}" },
        (Some(Sign::Minus), true, true, false, true) => { proof { reveal_strlit("{:^-#0.precision$}"); } "{:^-#0.precision$}" },
        (Some(Sign::Minus), true, true, true, false) => { proof { reveal_strlit("{:^-#0width$}"); } "{:^-#0width$}" },
        (Some(Sign::Minus), true, true, true, true) => { proof { reveal_strlit("{:^-#0width$.precision$}"); } "{:^-#0width$.precision$}" },
    }
}

/// The templates with fill `0`, alignment `<`.
fn zero_left(sign: Option<Sign>, alternate: bool, zero_pad: bool, width: bool, precision: bool) -> (text:
    &'static str)
    ensures
        text@ == template_of(Some((Some(Fill::Zero), Alignment::Left)), sign, alternate, zero_pad, width, precision),
{
    match (sign, alternate, zero_pad, width, precision) {
        (None, false, false, false, false) => { proof { reveal_strlit("{:0<}"); } "{:0<}" },
        (None, false, false, false, true) => { proof { reveal_strlit("{:0<.precision$}"); } "{:0<.precision$}" },
        (None, false, false, true, false) => { proof { reveal_strlit("{:0<width$}"); } "{:0<width$}" },
        (None, false, false, true, true) => { proof { reveal_strlit("{:0<width$.precision$}"); } "{:0<width$.precision$}" },
        (None, false, true, false, false) => { proof { reveal_strlit("{:0<0}"); } "{:0<0}" },
        (None, false, true, false, true) => { proof { reveal_strlit("{:0<0.precision$}"); } "{:0<0.precision$}" },
        (None, false, true, true, false) => { proof { reveal_strlit("{:0<0width$}"); } "{:0<0width$}" },
        (None, false, true, true, true) => { proof { reveal_strlit("{:0<0width$.precision$}"); } "{:0<0width$.precision$}" },
        (None, true, false, false, false) => { proof { reveal_strlit("{:0<#}"); } "{:0<#}" },
        (None, true, false, false, true) => { proof { reveal_strlit("{:0<#.precision$}"); } "{:0<#.precision$}" },
        (None, true, false, true, false) => { proof { reveal_strlit("{:0<#width$}"); } "{:0<#width$}" },
        (None, true, false, true, true) => { proof { reveal_strlit("{:0<#width$.precision$}"); } "{:0<#width$.precision$}" },
        (None, true, true, false, false) => { proof { reveal_strlit("{:0<#0}"); } "{:0<#0}" },
        (None, true, true, false, true) => { proof { reveal_strlit("{:0<#0.precision$}"); } "{:0<#0.precision$}" },
        (None, true, true, true, false) => { proof { reveal_strlit("{:0<#0width$}"); } "{:0<#0width$}" },
        (None, true, true, true, true) => { proof { reveal_strlit("{:0<#0width$.precision$}"); } "{:0<#0width$.precision$}" },
        (Some(Sign::Plus), false, false, false, false) => { proof { reveal_strlit("{:0<+}"); } "{:0<+}" },
        (Some(Sign::Plus), false, false, false, true) => { proof { reveal_strlit("{:0<+.precision$}"); } "{:0<+.precision$}" },
        (Some(Sign::Plus), false, false, true, false) => { proof { reveal_strlit("{:0<+width$}"); } "{:0<+width$}" },
        (Some(Sign::Plus), false, false, true, true) => { proof { reveal_strlit("{:0<+width$.precision$}"); } "{:0<+width$.precision$}" },
        (Some(Sign::Plus), false, true, false, false) => { proof { reveal_strlit("{:0<+0}"); } "{:0<+0}" },
        (Some(Sign::Plus), false, true, false, true) => { proof { reveal_strlit("{:0<+0.precision$}"); } "{:0<+0.precision$}" },
        (Some(Sign::Plus), false, true, true, false) => { proof { reveal_strlit("{:0<+0width$}"); } "{:0<+0width$}" },
        (Some(Sign::Plus), false, true, true, true) => { proof { reveal_strlit("{:0<+0width$.precision$}"); } "{:0<+0width$.precision$}" },
        (Some(Sign::Plus), true, false, false, false) => { proof { reveal_strlit("{:0<+#}"); } "{:0<+#}" },
        (Some(Sign::Plus), true, false, false, true) => { proof { reveal_strlit("{:0<+#.precision$}"); } "{:0<+#.precision$}" },
        (Some(Sign::Plus), true, false, true, false) => { proof { reveal_strlit("{:0<+#width$}"); } "{:0<+#width$}" },
        (Some(Sign::Plus), true, false, true, true) => { proof { reveal_strlit("{:0<+#width$.precision$}"); } "{:0<+#width$.precision$}" },
        (Some(Sign::Plus), true, true, false, false) => { proof { reveal_strlit("{:0<+#0}"); } "{:0<+#0}" },
        (Some(Sign::Plus), true, true, false, true) => { proof { reveal_strlit("{:0<+#0.precision$}"); } "{:0<+#0.precision$}" },
        (Some(Sign::Plus), true, true, true, false) => { proof { reveal_strlit("{:0<+#0width$}"); } "{:0<+#0width$}" },
        (Some(Sign::Plus), true, true, true, true) => { proof { reveal_strlit("{:0<+#0width$.precision$}"); } "{:0<+#0width$.precision$}" },
        (Some(Sign::Minus), false, false, false, false) => { proof { reveal_strlit("{:0<-}"); } "{:0<-}" },
        (Some(Sign::Minus), false, false, false, true) => { proof { reveal_strlit("{:0<-.precision$}"); } "{:0<-.precision$}" },
        (Some(Sign::Minus), false, false, true, false) => { proof { reveal_strlit("{:0<-width$}"); } "{:0<-width$}" },
        (Some(Sign::Minus), false, false, true, true) => { proof { reveal_strlit("{:0<-width$.precision$}"); } "{:0<-width$.precision$}" },
        (Some(Sign::Minus), false, true, false, false) => { proof { reveal_strlit("{:0<-0}"); } "{:0<-0}" },
        (Some(Sign::Minus), false, true, false, true) => { proof { reveal_strlit("{:0<-0.precision$}"); } "{:0<-0.precision$}" },
        (Some(Sign::Minus), false, true, true, false) => { proof { reveal_strlit("{:0<-0width$}"); } "{:0<-0width$}" },
        (Some(Sign::Minus), false, true, true, true) => { proof { reveal_strlit("{:0<-0width$.precision$}"); } "{:0<-0width$.precision$}" },
        (Some(Sign::Minus), true, false, false, false) => { proof { reveal_strlit("{:0<-#}"); } "{:0<-#}" },
        (Some(Sign::Minus), true, false, false, true) => { proof { reveal_strlit("{:0<-#.precision$}"); } "{:0<-#.precision$}" },
        (Some(Sign::Minus), true, false, true, false) => { proof { reveal_strlit("{:0<-#width$}"); } "{:0<-#width$}" },
        (Some(Sign::Minus), true, false, true, true) => { proof { reveal_strlit("{:0<-#width$.precision$}"); } "{:0<-#width$.precision$}" },
        (Some(Sign::Minus), true, true, false, false) => { proof { reveal_strlit("{:0<-#0}"); } "{:0<-#0}" },
        (Some(Sign::Minus), true, true, false, true) => { proof { reveal_strlit("{:0<-#0.precision$}"); } "{:0<-#0.precision$}" },
        (Some(Sign::Minus), true, true, true, false) => { proof { reveal_strlit("{:0<-#0width$}"); } "{:0<-#0width$}" },
        (Some(Sign::Minus), true, true, true, true) => { proof { reveal_strlit("{:0<-#0width$.precision$}"); } "{:0<-#0width$.precision$}" },
    }
}

/// The templates with fill `0`, alignment `>`.
fn zero_right(sign: Option<Sign>, alternate: bool, zero_pad: bool, width: bool, precision: bool) -> (text:
    &'static str)
    ensures
        text@ == template_of(Some((Some(Fill::Zero), Alignment::Right)), sign, alternate, zero_pad, width, precision),
{
    match (sign, alternate, zero_pad, width, precision) {
        (None, false, false, false, false) => { proof { reveal_strlit("{:0>}"); } "{:0>}" },
        (None, false, false, false, true) => { proof { reveal_strlit("{:0>.precision$}"); } "{:0>.precision$}" },
        (None, false, false, true, false) => { proof { reveal_strlit("{:0>width$}"); } "{:0>width$}" },
        (None, false, false, true, true) => { proof { reveal_strlit("{:0>width$.precision$}"); } "{:0>width$.precision$}" },
        (None, false, true, false, false) => { proof { reveal_strlit("{:0>0}"); } "{:0>0}" },
        (None, false, true, false, true) => { proof { reveal_strlit("{:0>0.precision$}"); } "{:0>0.precision$}" },
        (None, false, true, true, false) => { proof { reveal_strlit("{:0>0width$}"); } "{:0>0width$}" },
        (None, false, true, true, true) => { proof { reveal_strlit("{:0>0width$.precision$}"); } "{:0>0width$.precision$}" },
        (None, true, false, false, false) => { proof { reveal_strlit("{:0>#}"); } "{:0>#}" },
        (None, true, false, false, true) => { proof { reveal_strlit("{:0>#.precision$}"); } "{:0>#.precision$}" },
        (None, true, false, true, false) => { proof { reveal_strlit("{:0>#width$}"); } "{:0>#width$}" },
        (None, true, false, true, true) => { proof { reveal_strlit("{:0>#width$.precision$}"); } "{:0>#width$.precision$}" },
        (None, true, true, false, false) => { proof { reveal_strlit("{:0>#0}"); } "{:0>#0}" },
        (None, true, true, false, true) => { proof { reveal_strlit("{:0>#0.precision$}"); } "{:0>#0.precision$}" },
        (None, true, true, true, false) => { proof { reveal_strlit("{:0>#0width$}"); } "{:0>#0width$}" },
        (None, true, true, true, true) => { proof { reveal_strlit("{:0>#0width$.precision$}"); } "{:0>#0width$.precision$}" },
        (Some(Sign::Plus), false, false, false, false) => { proof { reveal_strlit("{:0>+}"); } "{:0>+}" },
        (Some(Sign::Plus), false, false, false, true) => { proof { reveal_strlit("{:0>+.precision$}"); } "{:0>+.precision$}" },
        (Some(Sign::Plus), false, false, true, false) => { proof { reveal_strlit("{:0>+width$}"); } "{:0>+width$}" },
        (Some(Sign::Plus), false, false, true, true) => { proof { reveal_strlit("{:0>+width$.precision$}"); } "{:0>+width$.precision$}" },
        (Some(Sign::Plus), false, true, false, false) => { proof { reveal_strlit("{:0>+0}"); } "{:0>+0}" },
        (Some(Sign::Plus), false, true, false, true) => { proof { reveal_strlit("{:0>+0.precision$}"); } "{:0>+0.precision$}" },
        (Some(Sign::Plus), false, true, true, false) => { proof { reveal_strlit("{:0>+0width$}"); } "{:0>+0width$}" },
        (Some(Sign::Plus), false, true, true, true) => { proof { reveal_strlit("{:0>+0width$.precision$}"); } "{:0>+0width$.precision$}" },
        (Some(Sign::Plus), true, false, false, false) => { proof { reveal_strlit("{:0>+#}"); } "{:0>+#}" },
        (Some(Sign::Plus), true, false, false, true) => { proof { reveal_strlit("{:0>+#.precision$}"); } "{:0>+#.precision$}" },
        (Some(Sign::Plus), true, false, true, false) => { proof { reveal_strlit("{:0>+#width$}"); } "{:0>+#width$}" },
        (Some(Sign::Plus), true, false, true, true) => { proof { reveal_strlit("{:0>+#width$.precision$}"); } "{:0>+#width$.precision$}" },
        (Some(Sign::Plus), true, true, false, false) => { proof { reveal_strlit("{:0>+#0}"); } "{:0>+#0}" },
        (Some(Sign::Plus), true, true, false, true) => { proof { reveal_strlit("{:0>+#0.precision$}"); } "{:0>+#0.precision$}" },
        (Some(Sign::Plus), true, true, true, false) => { proof { reveal_strlit("{:0>+#0width$}"); } "{:0>+#0width$}" },
        (Some(Sign::Plus), true, true, true, true) => { proof { reveal_strlit("{:0>+#0width$.precision$}"); } "{:0>+#0width$.precision$}" },
        (Some(Sign::Minus), false, false, false, false) => { proof { reveal_strlit("{:0>-}"); } "{:0>-}" },
        (Some(Sign::Minus), false, false, false, true) => { proof { reveal_strlit("{:0>-.precision$}"); } "{:0>-.precision$}" },
        (Some(Sign::Minus), false, false, true, false) => { proof { reveal_strlit("{:0>-width$}"); } "{:0>-width$}" },
        (Some(Sign::Minus), false, false, true, true) => { proof { reveal_strlit("{:0>-width$.precision$}"); } "{:0>-width$.precision$}" },
        (Some(Sign::Minus), false, true, false, false) => { proof { reveal_strlit("{:0>-0}"); } "{:0>-0}" },
        (Some(Sign::Minus), false, true, false, true) => { proof { reveal_strlit("{:0>-0.precision$}"); } "{:0>-0.precision$}" },
        (Some(Sign::Minus), false, true, true, false) => { proof { reveal_strlit("{:0>-0width$}"); } "{:0>-0width$}" },
        (Some(Sign::Minus), false, true, true, true) => { proof { reveal_strlit("{:0>-0width$.precision$}"); } "{:0>-0width$.precision$}" },
        (Some(Sign::Minus), true, false, false, false) => { proof { reveal_strlit("{:0>-#}"); } "{:0>-#}" },
        (Some(Sign::Minus), true, false, false, true) => { proof { reveal_strlit("{:0>-#.precision$}"); } "{:0>-#.precision$}" },
        (Some(Sign::Minus), true, false, true, false) => { proof { reveal_strlit("{:0>-#width$}"); } "{:0>-#width$}" },
        (Some(Sign::Minus), true, false, true, true) => { proof { reveal_strlit("{:0>-#width$.precision$}"); } "{:0>-#width$.precision$}" },
        (Some(Sign::Minus), true, true, false, false) => { proof { reveal_strlit("{:0>-#0}"); } "{:0>-#0}" },
        (Some(Sign::Minus), true, true, false, true) => { proof { reveal_strlit("{:0>-#0.precision$}"); } "{:0>-#0.precision$}" },
        (Some(Sign::Minus), true, true, true, false) => { proof { reveal_strlit("{:0>-#0width$}"); } "{:0>-#0width$}" },
        (Some(Sign::Minus), true, true, true, true) => { proof { reveal_strlit("{:0>-#0width$.precision$}"); } "{:0>-#0width$.precision$}" },
    }
}

/// The templates with fill `0`, alignment `^`.
fn zero_center(sign: Option<Sign>, alternate: bool, zero_pad: bool, width: bool, precision: bool) -> (text:
    &'static str)
    ensures
        text@ == template_of(Some((Some(Fill::Zero), Alignment::Center)), sign, alternate, zero_pad, width, precision),
{
    match (sign, alternate, zero_pad, width, precision) {
        (None, false, false, false, false) => { proof { reveal_strlit("{:0^}"); } "{:0^}" },
        (None, false, false, false, true) => { proof { reveal_strlit("{:0^.precision$}"); } "{:0^.precision$}" },
        (None, false, false, true, false) => { proof { reveal_strlit("{:0^width$}"); } "{:0^width$}" },
        (None, false, false, true, true) => { proof { reveal_strlit("{:0^width$.precision$}"); } "{:0^width$.precision$}" },
        (None, false, true, false, false) => { proof { reveal_strlit("{:0^0}"); } "{:0^0}" },
        (None, false, true, false, true) => { proof { reveal_strlit("{:0^0.precision$}"); } "{:0^0.precision$}" },
        (None, false, true, true, false) => { proof { reveal_strlit("{:0^0width$}"); } "{:0^0width$}" },
        (None, false, true, true, true) => { proof { reveal_strlit("{:0^0width$.precision$}"); } "{:0^0width$.precision$}" },
        (None, true, false, false, false) => { proof { reveal_strlit("{:0^#}"); } "{:0^#}" },
        (None, true, false, false, true) => { proof { reveal_strlit("{:0^#.precision$}"); } "{:0^#.precision$}" },
        (None, true, false, true, false) => { proof { reveal_strlit("{:0^#width$}"); } "{:0^#width$}" },
        (None, true, false, true, true) => { proof { reveal_strlit("{:0^#width$.precision$}"); } "{:0^#width$.precision$}" },
        (None, true, true, false, false) => { proof { reveal_strlit("{:0^#0}"); } "{:0^#0}" },
        (None, true, true, false, true) => { proof { reveal_strlit("{:0^#0.precision$}"); } "{:0^#0.precision$}" },
        (None, true, true, true, false) => { proof { reveal_strlit("{:0^#0width$}"); } "{:0^#0width$}" },
        (None, true, true, true, true) => { proof { reveal_strlit("{:0^#0width$.precision$}"); } "{:0^#0width$.precision$}" },
        (Some(Sign::Plus), false, false, false, false) => { proof { reveal_strlit("{:0^+}"); } "{:0^+}" },
        (Some(Sign::Plus), false, false, false, true) => { proof { reveal_strlit("{:0^+.precision$}"); } "{:0^+.precision$}" },
        (Some(Sign::Plus), false, false, true, false) => { proof { reveal_strlit("{:0^+width$}"); } "{:0^+width$}" },
        (Some(Sign::Plus), false, false, true, true) => { proof { reveal_strlit("{:0^+width$.precision$}"); } "{:0^+width$.precision$}" },
        (Some(Sign::Plus), false, true, false, false) => { proof { reveal_strlit("{:0^+0}"); } "{:0^+0}" },
        (Some(Sign::Plus), false, true, false, true) => { proof { reveal_strlit("{:0^+0.precision$}"); } "{:0^+0.precision$}" },
        (Some(Sign::Plus), false, true, true, false) => { proof { reveal_strlit("{:0^+0width$}"); } "{:0^+0width$}" },
        (Some(Sign::Plus), false, true, true, true) => { proof { reveal_strlit("{:0^+0width$.precision$}"); } "{:0^+0width$.precision$}" },
        (Some(Sign::Plus), true, false, false, false) => { proof { reveal_strlit("{:0^+#}"); } "{:0^+#}" },
        (Some(Sign::Plus), true, false, false, true) => { proof { reveal_strlit("{:0^+#.precision$}"); } "{:0^+#.precision$}" },
        (Some(Sign::Plus), true, false, true, false) => { proof { reveal_strlit("{:0^+#width$}"); } "{:0^+#width$}" },
        (Some(Sign::Plus), true, false, true, true) => { proof { reveal_strlit("{:0^+#width$.precision$}"); } "{:0^+#width$.precision$}" },
        (Some(Sign::Plus), true, true, false, false) => { proof { reveal_strlit("{:0^+#0}"); } "{:0^+#0}" },
        (Some(Sign::Plus), true, true, false, true) => { proof { reveal_strlit("{:0^+#0.precision$}"); } "{:0^+#0.precision$}" },
        (Some(Sign::Plus), true, true, true, false) => { proof { reveal_strlit("{:0^+#0width$}"); } "{:0^+#0width$}" },
        (Some(Sign::Plus), true, true, true, true) => { proof { reveal_strlit("{:0^+#0width$.precision$}"); } "{:0^+#0width$.precision$}" },
        (Some(Sign::Minus), false, false, false, false) => { proof { reveal_strlit("{:0^-}"); } "{:0^-}" },
        (Some(Sign::Minus), false, false, false, true) => { proof { reveal_strlit("{:0^-.precision$}"); } "{:0^-.precision$}" },
        (Some(Sign::Minus), false, false, true, false) => { proof { reveal_strlit("{:0^-width$}"); } "{:0^-width$}" },
        (Some(Sign::Minus), false, false, true, true) => { proof { reveal_strlit("{:0^-width$.precision$}"); } "{:0^-width$.precision$}" },
        (Some(Sign::Minus), false, true, false, false) => { proof { reveal_strlit("{:0^-0}"); } "{:0^-0}" },
        (Some(Sign::Minus), false, true, false, true) => { proof { reveal_strlit("{:0^-0.precision$}"); } "{:0^-0.precision$}" },
        (Some(Sign::Minus), false, true, true, false) => { proof { reveal_strlit("{:0^-0width$}"); } "{:0^-0width$}" },
        (Some(Sign::Minus), false, true, true, true) => { proof { reveal_strlit("{:0^-0width$.precision$}"); } "{:0^-0width$.precision$}" },
        (Some(Sign::Minus), true, false, false, false) => { proof { reveal_strlit("{:0^-#}"); } "{:0^-#}" },
        (Some(Sign::Minus), true, false, false, true) => { proof { reveal_strlit("{:0^-#.precision$}"); } "{:0^-#.precision$}" },
        (Some(Sign::Minus), true, false, true, false) => { proof { reveal_strlit("{:0^-#width$}"); } "{:0^-#width$}" },
        (Some(Sign::Minus), true, false, true, true) => { proof { reveal_strlit("{:0^-#width$.precision$}"); } "{:0^-#width$.precision$}" },
        (Some(Sign::Minus), true, true, false, false) => { proof { reveal_strlit("{:0^-#0}"); } "{:0^-#0}" },
        (Some(Sign::Minus), true, true, false, true) => { proof { reveal_strlit("{:0^-#0.precision$}"); } "{:0^-#0.precision$}" },
        (Some(Sign::Minus), true, true, true, false) => { proof { reveal_strlit("{:0^-#0width$}"); } "{:0^-#0width$}" },
        (Some(Sign::Minus), true, true, true, true) => { proof { reveal_strlit("{:0^-#0width$.precision$}"); } "{:0^-#0width$.precision$}" },
    }
}

/// The templates with fill ` `, alignment `<`.
fn space_left(sign: Option<Sign>, alternate: bool, zero_pad: bool, width: bool, precision: bool) -> (text:
    &'static str)
    ensures
        text@ == template_of(Some((Some(Fill::Space), Alignment::Left)), sign, alternate, zero_pad, width, precision),
{
    match (sign, alternate, zero_pad, width, precision) {
        (None, false, false, false, false) => { proof { reveal_strlit("{: <}"); } "{: <}" },
        (None, false, false, false, true) => { proof { reveal_strlit("{: <.precision$}"); } "{: <.precision$}" },
        (None, false, false, true, false) => { proof { reveal_strlit("{: <width$}"); } "{: <width$}" },
        (None, false, false, true, true) => { proof { reveal_strlit("{: <width$.precision$}"); } "{: <width$.precision$}" },
        (None, false, true, false, false) => { proof { reveal_strlit("{: <0}"); } "{: <0}" },
        (None, false, true, false, true) => { proof { reveal_strlit("{: <0.precision$}"); } "{: <0.precision$}" },
        (None, false, true, true, false) => { proof { reveal_strlit("{: <0width$}"); } "{: <0width$}" },
        (None, false, true, true, true) => { proof { reveal_strlit("{: <0width$.precision$}"); } "{: <0width$.precision$}" },
        (None, true, false, false, false) => { proof { reveal_strlit("{: <#}"); } "{: <#}" },
        (None, true, false, false, true) => { proof { reveal_strlit("{: <#.precision$}"); } "{: <#.precision$}" },
        (None, true, false, true, false) => { proof { reveal_strlit("{: <#width$}"); } "{: <#width$}" },
        (None, true, false, true, true) => { proof { reveal_strlit("{: <#width$.precision$}"); } "{: <#width$.precision$}" },
        (None, true, true, false, false) => { proof { reveal_strlit("{: <#0}"); } "{: <#0}" },
        (None, true, true, false, true) => { proof { reveal_strlit("{: <#0.precision$}"); } "{: <#0.precision$}" },
        (None, true, true, true, false) => { proof { reveal_strlit("{: <#0width$}"); } "{: <#0width$}" },
        (None, true, true, true, true) => { proof { reveal_strlit("{: <#0width$.precision$}"); } "{: <#0width$.precision$}" },
        (Some(Sign::Plus), false, false, false, false) => { proof { reveal_strlit("{: <+}"); } "{: <+}" },
        (Some(Sign::Plus), false, false, false, true) => { proof { reveal_strlit("{: <+.precision$}"); } "{: <+.precision$}" },
        (Some(Sign::Plus), false, false, true, false) => { proof { reveal_strlit("{: <+width$}"); } "{: <+width$}" },
        (Some(Sign::Plus), false, false, true, true) => { proof { reveal_strlit("{: <+width$.precision$}"); } "{: <+width$.precision$}" },
        (Some(Sign::Plus), false, true, false, false) => { proof { reveal_strlit("{: <+0}"); } "{: <+0}" },
        (Some(Sign::Plus), false, true, false, true) => { proof { reveal_strlit("{: <+0.precision$}"); } "{: <+0.precision$}" },
        (Some(Sign::Plus), false, true, true, false) => { proof { reveal_strlit("{: <+0width$}"); } "{: <+0width$}" },
        (Some(Sign::Plus), false, true, true, true) => { proof { reveal_strlit("{: <+0width$.precision$}"); } "{: <+0width$.precision$}" },
        (Some(Sign::Plus), true, false, false, false) => { proof { reveal_strlit("{: <+#}"); } "{: <+#}" },
        (Some(Sign::Plus), true, false, false, true) => { proof { reveal_strlit("{: <+#.precision$}"); } "{: <+#.precision$}" },
        (Some(Sign::Plus), true, false, true, false) => { proof { reveal_strlit("{: <+#width$}"); } "{: <+#width$}" },
        (Some(Sign::Plus), true, false, true, true) => { proof { reveal_strlit("{: <+#width$.precision$}"); } "{: <+#width$.precision$}" },
        (Some(Sign::Plus), true, true, false, false) => { proof { reveal_strlit("{: <+#0}"); } "{: <+#0}" },
        (Some(Sign::Plus), true, true, false, true) => { proof { reveal_strlit("{: <+#0.precision$}"); } "{: <+#0.precision$}" },
        (Some(Sign::Plus), true, true, true, false) => { proof { reveal_strlit("{: <+#0width$}"); } "{: <+#0width$}" },
        (Some(Sign::Plus), true, true, true, true) => { proof { reveal_strlit("{: <+#0width$.precision$}"); } "{: <+#0width$.precision$}" },
        (Some(Sign::Minus), false, false, false, false) => { proof { reveal_strlit("{: <-}"); } "{: <-}" },
        (Some(Sign::Minus), false, false, false, true) => { proof { reveal_strlit("{: <-.precision$}"); } "{: <-.precision$}" },
        (Some(Sign::Minus), false, false, true, false) => { proof { reveal_strlit("{: <-width$}"); } "{: <-width$}" },
        (Some(Sign::Minus), false, false, true, true) => { proof { reveal_strlit("{: <-width$.precision$}"); } "{: <-width$.precision$}" },
        (Some(Sign::Minus), false, true, false, false) => { proof { reveal_strlit("{: <-0}"); } "{: <-0}" },
        (Some(Sign::Minus), false, true, false, true) => { proof { reveal_strlit("{: <-0.precision$}"); } "{: <-0.precision$}" },
        (Some(Sign::Minus), false, true, true, false) => { proof { reveal_strlit("{: <-0width$}"); } "{: <-0width$}" },
        (Some(Sign::Minus), false, true, true, true) => { proof { reveal_strlit("{: <-0width$.precision$}"); } "{: <-0width$.precision$}" },
        (Some(Sign::Minus), true, false, false, false) => { proof { reveal_strlit("{: <-#}"); } "{: <-#}" },
        (Some(Sign::Minus), true, false, false, true) => { proof { reveal_strlit("{: <-#.precision$}"); } "{: <-#.precision$}" },
        (Some(Sign::Minus), true, false, true, false) => { proof { reveal_strlit("{: <-#width$}"); } "{: <-#width$}" },
        (Some(Sign::Minus), true, false, true, true) => { proof { reveal_strlit("{: <-#width$.precision$}"); } "{: <-#width$.precision$}" },
        (Some(Sign::Minus), true, true, false, false) => { proof { reveal_strlit("{: <-#0}"); } "{: <-#0}" },
        (Some(Sign::Minus), true, true, false, true) => { proof { reveal_strlit("{: <-#0.precision$}"); } "{: <-#0.precision$}" },
        (Some(Sign::Minus), true, true, true, false) => { proof { reveal_strlit("{: <-#0width$}"); } "{: <-#0width$}" },
        (Some(Sign::Minus), true, true, true, true) => { proof { reveal_strlit("{: <-#0width$.precision$}"); } "{: <-#0width$.precision$}" },
    }
}

/// The templates with fill ` `, alignment `>`.
fn space_right(sign: Option<Sign>, alternate: bool, zero_pad: bool, width: bool, precision: bool) -> (text:
    &'static str)
    ensures
        text@ == template_of(Some((Some(Fill::Space), Alignment::Right)), sign, alternate, zero_pad, width, precision),
{
    match (sign, alternate, zero_pad, width, precision) {
        (None, false, false, false, false) => { proof { reveal_strlit("{: >}"); } "{: >}" },
        (None, false, false, false, true) => { proof { reveal_strlit("{: >.precision$}"); } "{: >.precision$}" },
        (None, false, false, true, false) => { proof { reveal_strlit("{: >width$}"); } "{: >width$}" },
        (None, false, false, true, true) => { proof { reveal_strlit("{: >width$.precision$}"); } "{: >width$.precision$}" },
        (None, false, true, false, false) => { proof { reveal_strlit("{: >0}"); } "{: >0}" },
        (None, false, true, false, true) => { proof { reveal_strlit("{: >0.precision$}"); } "{: >0.precision$}" },
        (None, false, true, true, false) => { proof { reveal_strlit("{: >0width$}"); } "{: >0width$}" },
        (None, false, true, true, true) => { proof { reveal_strlit("{: >0width$.precision$}"); } "{: >0width$.precision$}" },
        (None, true, false, false, false) => { proof { reveal_strlit("{: >#}"); } "{: >#}" },
        (None, true, false, false, true) => { proof { reveal_strlit("{: >#.precision$}"); } "{: >#.precision$}" },
        (None, true, false, true, false) => { proof { reveal_strlit("{: >#width$}"); } "{: >#width$}" },
        (None, true, false, true, true) => { proof { reveal_strlit("{: >#width$.precision$}"); } "{: >#width$.precision$}" },
        (None, true, true, false, false) => { proof { reveal_strlit("{: >#0}"); } "{: >#0}" },
        (None, true, true, false, true) => { proof { reveal_strlit("{: >#0.precision$}"); } "{: >#0.precision$}" },
        (None, true, true, true, false) => { proof { reveal_strlit("{: >#0width$}"); } "{: >#0width$}" },
        (None, true, true, true, true) => { proof { reveal_strlit("{: >#0width$.precision$}"); } "{: >#0width$.precision$}" },
        (Some(Sign::Plus), false, false, false, false) => { proof { reveal_strlit("{: >+}"); } "{: >+}" },
        (Some(Sign::Plus), false, false, false, true) => { proof { reveal_strlit("{: >+.precision$}"); } "{: >+.precision$}" },
        (Some(Sign::Plus), false, false, true, false) => { proof { reveal_strlit("{: >+width$}"); } "{: >+width$}" },
        (Some(Sign::Plus), false, false, true, true) => { proof { reveal_strlit("{: >+width$.precision$}"); } "{: >+width$.precision$}" },
        (Some(Sign::Plus), false, true, false, false) => { proof { reveal_strlit("{: >+0}"); } "{: >+0}" },
        (Some(Sign::Plus), false, true, false, true) => { proof { reveal_strlit("{: >+0.precision$}"); } "{: >+0.precision$}" },
        (Some(Sign::Plus), false, true, true, false) => { proof { reveal_strlit("{: >+0width$}"); } "{: >+0width$}" },
        (Some(Sign::Plus), false, true, true, true) => { proof { reveal_strlit("{: >+0width$.precision$}"); } "{: >+0width$.precision$}" },
        (Some(Sign::Plus), true, false, false, false) => { proof { reveal_strlit("{: >+#}"); } "{: >+#}" },
        (Some(Sign::Plus), true, false, false, true) => { proof { reveal_strlit("{: >+#.precision$}"); } "{: >+#.precision$}" },
        (Some(Sign::Plus), true, false, true, false) => { proof { reveal_strlit("{: >+#width$}"); } "{: >+#width$}" },
        (Some(Sign::Plus), true, false, true, true) => { proof { reveal_strlit("{: >+#width$.precision$}"); } "{: >+#width$.precision$}" },
        (Some(Sign::Plus), true, true, false, false) => { proof { reveal_strlit("{: >+#0}"); } "{: >+#0}" },
        (Some(Sign::Plus), true, true, false, true) => { proof { reveal_strlit("{: >+#0.precision$}"); } "{: >+#0.precision$}" },
        (Some(Sign::Plus), true, true, true, false) => { proof { reveal_strlit("{: >+#0width$}"); } "{: >+#0width$}" },
        (Some(Sign::Plus), true, true, true, true) => { proof { reveal_strlit("{: >+#0width$.precision$}"); } "{: >+#0width$.precision$}" },
        (Some(Sign::Minus), false, false, false, false) => { proof { reveal_strlit("{: >-}"); } "{: >-}" },
        (Some(Sign::Minus), false, false, false, true) => { proof { reveal_strlit("{: >-.precision$}"); } "{: >-.precision$}" },
        (Some(Sign::Minus), false, false, true, false) => { proof { reveal_strlit("{: >-width$}"); } "{: >-width$}" },
        (Some(Sign::Minus), false, false, true, true) => { proof { reveal_strlit("{: >-width$.precision$}"); } "{: >-width$.precision$}" },
        (Some(Sign::Minus), false, true, false, false) => { proof { reveal_strlit("{: >-0}"); } "{: >-0}" },
        (Some(Sign::Minus), false, true, false, true) => { proof { reveal_strlit("{: >-0.precision$}"); } "{: >-0.precision$}" },
        (Some(Sign::Minus), false, true, true, false) => { proof { reveal_strlit("{: >-0width$}"); } "{: >-0width$}" },
        (Some(Sign::Minus), false, true, true, true) => { proof { reveal_strlit("{: >-0width$.precision$}"); } "{: >-0width$.precision$}" },
        (Some(Sign::Minus), true, false, false, false) => { proof { reveal_strlit("{: >-#}"); } "{: >-#}" },
        (Some(Sign::Minus), true, false, false, true) => { proof { reveal_strlit("{: >-#.precision$}"); } "{: >-#.precision$}" },
        (Some(Sign::Minus), true, false, true, false) => { proof { reveal_strlit("{: >-#width$}"); } "{: >-#width$}" },
        (Some(Sign::Minus), true, false, true, true) => { proof { reveal_strlit("{: >-#width$.precision$}"); } "{: >-#width$.precision$}" },
        (Some(Sign::Minus), true, true, false, false) => { proof { reveal_strlit("{: >-#0}"); } "{: >-#0}" },
        (Some(Sign::Minus), true, true, false, true) => { proof { reveal_strlit("{: >-#0.precision$}"); } "{: >-#0.precision$}" },
        (Some(Sign::Minus), true, true, true, false) => { proof { reveal_strlit("{: >-#0width$}"); } "{: >-#0width$}" },
        (Some(Sign::Minus), true, true, true, true) => { proof { reveal_strlit("{: >-#0width$.precision$}"); } "{: >-#0width$.precision$}" },
    }
}

/// The templates with fill ` `, alignment `^`.
fn space_center(sign: Option<Sign>, alternate: bool, zero_pad: bool, width: bool, precision: bool) -> (text:
    &'static str)
    ensures
        text@ == template_of(Some((Some(Fill::Space), Alignment::Center)), sign, alternate, zero_pad, width, precision),
{
    match (sign, alternate, zero_pad, width, precision) {
        (None, false, false, false, false) => { proof { reveal_strlit("{: ^}"); } "{: ^}" },
        (None, false, false, false, true) => { proof { reveal_strlit("{: ^.precision$}"); } "{: ^.precision$}" },
        (None, false, false, true, false) => { proof { reveal_strlit("{: ^width$}"); } "{: ^width$}" },
        (None, false, false, true, true) => { proof { reveal_strlit("{: ^width$.precision$}"); } "{: ^width$.precision$}" },
        (None, false, true, false, false) => { proof { reveal_strlit("{: ^0}"); } "{: ^0}" },
        (None, false, true, false, true) => { proof { reveal_strlit("{: ^0.precision$}"); } "{: ^0.precision$}" },
        (None, false, true, true, false) => { proof { reveal_strlit("{: ^0width$}"); } "{: ^0width$}" },
        (None, false, true, true, true) => { proof { reveal_strlit("{: ^0width$.precision$}"); } "{: ^0width$.precision$}" },
        (None, true, false, false, false) => { proof { reveal_strlit("{: ^#}"); } "{: ^#}" },
        (None, true, false, false, true) => { proof { reveal_strlit("{: ^#.precision$}"); } "{: ^#.precision$}" },
        (None, true, false, true, false) => { proof { reveal_strlit("{: ^#width$}"); } "{: ^#width$}" },
        (None, true, false, true, true) => { proof { reveal_strlit("{: ^#width$.precision$}"); } "{: ^#width$.precision$}" },
        (None, true, true, false, false) => { proof { reveal_strlit("{: ^#0}"); } "{: ^#0}" },
        (None, true, true, false, true) => { proof { reveal_strlit("{: ^#0.precision$}"); } "{: ^#0.precision$}" },
        (None, true, true, true, false) => { proof { reveal_strlit("{: ^#0width$}"); } "{: ^#0width$}" },
        (None, true, true, true, true) => { proof { reveal_strlit("{: ^#0width$.precision$}"); } "{: ^#0width$.precision$}" },
        (Some(Sign::Plus), false, false, false, false) => { proof { reveal_strlit("{: ^+}"); } "{: ^+}" },
        (Some(Sign::Plus), false, false, false, true) => { proof { reveal_strlit("{: ^+.precision$}"); } "{: ^+.precision$}" },
        (Some(Sign::Plus), false, false, true, false) => { proof { reveal_strlit("{: ^+width$}"); } "{: ^+width$}" },
        (Some(Sign::Plus), false, false, true, true) => { proof { reveal_strlit("{: ^+width$.precision$}"); } "{: ^+width$.precision$}" },
        (Some(Sign::Plus), false, true, false, false) => { proof { reveal_strlit("{: ^+0}"); } "{: ^+0}" },
        (Some(Sign::Plus), false, true, false, true) => { proof { reveal_strlit("{: ^+0.precision$}"); } "{: ^+0.precision$}" },
        (Some(Sign::Plus), false, true, true, false) => { proof { reveal_strlit("{: ^+0width$}"); } "{: ^+0width$}" },
        (Some(Sign::Plus), false, true, true, true) => { proof { reveal_strlit("{: ^+0width$.precision$}"); } "{: ^+0width$.precision$}" },
        (Some(Sign::Plus), true, false, false, false) => { proof { reveal_strlit("{: ^+#}"); } "{: ^+#}" },
        (Some(Sign::Plus), true, false, false, true) => { proof { reveal_strlit("{: ^+#.precision$}"); } "{: ^+#.precision$}" },
        (Some(Sign::Plus), true, false, true, false) => { proof { reveal_strlit("{: ^+#width$}"); } "{: ^+#width$}" },
        (Some(Sign::Plus), true, false, true, true) => { proof { reveal_strlit("{: ^+#width$.precision$}"); } "{: ^+#width$.precision$}" },
        (Some(Sign::Plus), true, true, false, false) => { proof { reveal_strlit("{: ^+#0}"); } "{: ^+#0}" },
        (Some(Sign::Plus), true, true, false, true) => { proof { reveal_strlit("{: ^+#0.precision$}"); } "{: ^+#0.precision$}" },
        (Some(Sign::Plus), true, true, true, false) => { proof { reveal_strlit("{: ^+#0width$}"); } "{: ^+#0width$}" },
        (Some(Sign::Plus), true, true, true, true) => { proof { reveal_strlit("{: ^+#0width$.precision$}"); } "{: ^+#0width$.precision$}" },
        (Some(Sign::Minus), false, false, false, false) => { proof { reveal_strlit("{: ^-}"); } "{: ^-}" },
        (Some(Sign::Minus), false, false, false, true) => { proof { reveal_strlit("{: ^-.precision$}"); } "{: ^-.precision$}" },
        (Some(Sign::Minus), false, false, true, false) => { proof { reveal_strlit("{: ^-width$}"); } "{: ^-width$}" },
        (Some(Sign::Minus), false, false, true, true) => { proof { reveal_strlit("{: ^-width$.precision$}"); } "{: ^-width$.precision$}" },
        (Some(Sign::Minus), false, true, false, false) => { proof { reveal_strlit("{: ^-0}"); } "{: ^-0}" },
        (Some(Sign::Minus), false, true, false, true) => { proof { reveal_strlit("{: ^-0.precision$}"); } "{: ^-0.precision$}" },
        (Some(Sign::Minus), false, true, true, false) => { proof { reveal_strlit("{: ^-0width$}"); } "{: ^-0width$}" },
        (Some(Sign::Minus), false, true, true, true) => { proof { reveal_strlit("{: ^-0width$.precision$}"); } "{: ^-0width$.precision$}" },
        (Some(Sign::Minus), true, false, false, false) => { proof { reveal_strlit("{: ^-#}"); } "{: ^-#}" },
        (Some(Sign::Minus), true, false, false, true) => { proof { reveal_strlit("{: ^-#.precision$}"); } "{: ^-#.precision$}" },
        (Some(Sign::Minus), true, false, true, false) => { proof { reveal_strlit("{: ^-#width$}"); } "{: ^-#width$}" },
        (Some(Sign::Minus), true, false, true, true) => { proof { reveal_strlit("{: ^-#width$.precision$}"); } "{: ^-#width$.precision$}" },
        (Some(Sign::Minus), true, true, false, false) => { proof { reveal_strlit("{: ^-#0}"); } "{: ^-#0}" },
        (Some(Sign::Minus), true, true, false, true) => { proof { reveal_strlit("{: ^-#0.precision$}"); } "{: ^-#0.precision$}" },
        (Some(Sign::Minus), true, true, true, false) => { proof { reveal_strlit("{: ^-#0width$}"); } "{: ^-#0width$}" },
        (Some(Sign::Minus), true, true, true, true) => { proof { reveal_strlit("{: ^-#0width$.precision$}"); } "{: ^-#0width$.precision$}" },
    }
}

} // verus!
