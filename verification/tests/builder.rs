use formatter_builder::{Alignment, Fill, FormatterBuilder, Setting, Sign};

#[test]
fn new_builder_has_nothing_set() {
    let builder = FormatterBuilder::new();
    assert_eq!(builder.sign, None);
    assert!(!builder.sign_aware_zero_pad);
    assert!(!builder.alternate);
    assert_eq!(builder.fill_align, None);
    assert_eq!(builder.width, None);
    assert_eq!(builder.precision, None);
}

#[test]
fn default_builder_is_the_new_builder() {
    let builder = FormatterBuilder::default();
    assert_eq!(builder.template(), FormatterBuilder::new().template());
    assert_eq!(builder.template(), "{:}");
}

#[test]
fn fill_as_char_gives_the_two_characters() {
    assert_eq!(Fill::Zero.as_char(), '0');
    assert_eq!(Fill::Space.as_char(), ' ');
}

#[test]
fn a_bare_value_and_some_set_and_none_clears() {
    assert_eq!(Setting::<Sign>::into_setting(Sign::Plus), Some(Sign::Plus));
    assert_eq!(Setting::<Sign>::into_setting(Some(Sign::Minus)), Some(Sign::Minus));
    assert_eq!(Setting::<Sign>::into_setting(None::<Sign>), None);
    assert_eq!(Setting::<u16>::into_setting(7u16), Some(7u16));
    assert_eq!(Setting::<u16>::into_setting(Some(0u16)), Some(0u16));
}

#[test]
fn setters_chain_and_touch_their_own_field_only() {
    let mut builder = FormatterBuilder::new();
    builder
        .sign(Sign::Minus)
        .sign_aware_zero_pad(true)
        .alternate(true)
        .align(Alignment::Center)
        .fill(Fill::Space)
        .width(12)
        .precision(Some(4));
    assert_eq!(builder.sign, Some(Sign::Minus));
    assert!(builder.sign_aware_zero_pad);
    assert!(builder.alternate);
    assert_eq!(builder.fill_align, Some((Some(Fill::Space), Alignment::Center)));
    assert_eq!(builder.width, Some(12));
    assert_eq!(builder.precision, Some(4));
    assert_eq!(builder.template(), "{: ^-#0width$.precision$}");

    builder.width(None);
    assert_eq!(builder.sign, Some(Sign::Minus));
    assert_eq!(builder.fill_align, Some((Some(Fill::Space), Alignment::Center)));
    assert_eq!(builder.width, None);
    assert_eq!(builder.precision, Some(4));
}

#[test]
fn setting_again_overrides() {
    let mut builder = FormatterBuilder::new();
    builder.sign(Sign::Plus).sign(Sign::Minus);
    assert_eq!(builder.sign, Some(Sign::Minus));
    builder.width(3).width(256);
    assert_eq!(builder.width, Some(256));
    builder.precision(1).precision(0);
    assert_eq!(builder.precision, Some(0));
    builder.alternate(true).alternate(false);
    assert!(!builder.alternate);
    builder.sign_aware_zero_pad(false).sign_aware_zero_pad(true);
    assert!(builder.sign_aware_zero_pad);
    builder.align(Alignment::Left).align(Alignment::Right);
    assert_eq!(builder.fill_align, Some((None, Alignment::Right)));
    builder.fill(Fill::Zero).fill(Fill::Space);
    assert_eq!(builder.fill_align, Some((Some(Fill::Space), Alignment::Right)));
    assert_eq!(builder.template(), "{: >-0width$.precision$}");
}

#[test]
fn unsetting_removes_the_fragment() {
    let mut builder = FormatterBuilder::new();
    builder
        .align(Alignment::Left)
        .fill(Fill::Zero)
        .sign(Sign::Plus)
        .alternate(true)
        .sign_aware_zero_pad(true)
        .width(5)
        .precision(2);
    assert_eq!(builder.template(), "{:0<+#0width$.precision$}");
    builder.sign(None);
    assert_eq!(builder.template(), "{:0<#0width$.precision$}");
    builder.alternate(false);
    assert_eq!(builder.template(), "{:0<0width$.precision$}");
    builder.sign_aware_zero_pad(false);
    assert_eq!(builder.template(), "{:0<width$.precision$}");
    builder.width(None);
    assert_eq!(builder.template(), "{:0<.precision$}");
    builder.precision(None);
    assert_eq!(builder.template(), "{:0<}");
    builder.fill(None);
    assert_eq!(builder.template(), "{:<}");
    builder.align(None);
    assert_eq!(builder.template(), "{:}");
}

#[test]
fn a_new_alignment_keeps_the_fill() {
    let mut builder = FormatterBuilder::new();
    builder.align(Alignment::Left).fill(Fill::Zero).align(Alignment::Center);
    assert_eq!(builder.fill_align, Some((Some(Fill::Zero), Alignment::Center)));
}

#[test]
fn clearing_the_alignment_clears_the_fill_with_it() {
    let mut builder = FormatterBuilder::new();
    builder.align(Alignment::Left).fill(Fill::Zero).align(None);
    assert_eq!(builder.fill_align, None);
    builder.align(Alignment::Right);
    assert_eq!(builder.fill_align, Some((None, Alignment::Right)));
}

#[test]
fn fill_after_align_shows_in_the_template() {
    let mut builder = FormatterBuilder::new();
    builder.align(Alignment::Right);
    assert_eq!(builder.template(), "{:>}");
    builder.fill(Fill::Zero);
    assert_eq!(builder.fill_align, Some((Some(Fill::Zero), Alignment::Right)));
    assert_eq!(builder.template(), "{:0>}");
}

#[test]
fn clearing_the_fill_without_alignment_changes_nothing() {
    let mut builder = FormatterBuilder::new();
    builder.sign(Sign::Plus).fill(None);
    assert_eq!(builder.fill_align, None);
    assert_eq!(builder.sign, Some(Sign::Plus));
    assert_eq!(builder.template(), "{:+}");
}
