use formatter_builder::{Alignment, Fill, FormatterBuilder, Sign};

fn fill_aligns() -> Vec<(Option<(Option<Fill>, Alignment)>, String)> {
    let mut states = vec![(None, String::new())];
    for (fill, fill_text) in [(None, ""), (Some(Fill::Zero), "0"), (Some(Fill::Space), " ")] {
        for (align, align_text) in
            [(Alignment::Left, "<"), (Alignment::Right, ">"), (Alignment::Center, "^")]
        {
            states.push((Some((fill, align)), format!("{}{}", fill_text, align_text)));
        }
    }
    states
}

fn builders() -> Vec<(FormatterBuilder, String)> {
    let mut all = Vec::new();
    for (fill_align, fill_align_text) in fill_aligns() {
        for (sign, sign_text) in [(None, ""), (Some(Sign::Plus), "+"), (Some(Sign::Minus), "-")] {
            for (alternate, alternate_text) in [(false, ""), (true, "#")] {
                for (zero_pad, zero_pad_text) in [(false, ""), (true, "0")] {
                    for (width, width_text) in [(None, ""), (Some(7u16), "width$")] {
                        for (precision, precision_text) in [(None, ""), (Some(0u16), ".precision$")]
                        {
                            let mut builder = FormatterBuilder::new();
                            builder
                                .sign(sign)
                                .alternate(alternate)
                                .sign_aware_zero_pad(zero_pad)
                                .width(width)
                                .precision(precision);
                            if let Some((fill, align)) = fill_align {
                                builder.align(align).fill(fill);
                            }
                            let mut expected = String::from("{:");
                            expected.push_str(&fill_align_text);
                            expected.push_str(sign_text);
                            expected.push_str(alternate_text);
                            expected.push_str(zero_pad_text);
                            expected.push_str(width_text);
                            expected.push_str(precision_text);
                            expected.push('}');
                            all.push((builder, expected));
                        }
                    }
                }
            }
        }
    }
    all
}

#[test]
fn every_combination_has_its_template() {
    let all = builders();
    assert_eq!(all.len(), 480);
    for (builder, expected) in &all {
        assert_eq!(builder.template(), expected.as_str());
        assert_eq!(builder.compile().text, expected.as_str());
    }
}

#[test]
fn templates_of_different_combinations_differ() {
    let all = builders();
    let mut texts: Vec<&str> = all.iter().map(|(builder, _)| builder.template()).collect();
    texts.sort();
    texts.dedup();
    assert_eq!(texts.len(), 480);
}

#[test]
fn the_template_ignores_the_numbers() {
    let mut small = FormatterBuilder::new();
    small.width(0).precision(1);
    let mut large = FormatterBuilder::new();
    large.width(65535).precision(256);
    assert_eq!(small.template(), "{:width$.precision$}");
    assert_eq!(large.template(), "{:width$.precision$}");
}

#[test]
fn compile_binds_what_is_set() {
    let mut builder = FormatterBuilder::new();
    let compiled = builder.compile();
    assert_eq!(compiled.text, "{:}");
    assert_eq!(compiled.width, None);
    assert_eq!(compiled.precision, None);

    builder.width(256);
    let compiled = builder.compile();
    assert_eq!(compiled.text, "{:width$}");
    assert_eq!(compiled.width, Some(256));
    assert_eq!(compiled.precision, None);

    builder.precision(65535);
    let compiled = builder.compile();
    assert_eq!(compiled.text, "{:width$.precision$}");
    assert_eq!(compiled.width, Some(256));
    assert_eq!(compiled.precision, Some(65535));

    builder.width(None);
    let compiled = builder.compile();
    assert_eq!(compiled.text, "{:.precision$}");
    assert_eq!(compiled.width, None);
    assert_eq!(compiled.precision, Some(65535));
}

#[test]
fn a_width_of_zero_is_still_a_width() {
    let mut builder = FormatterBuilder::new();
    builder.width(0).precision(0);
    let compiled = builder.compile();
    assert_eq!(compiled.text, "{:width$.precision$}");
    assert_eq!(compiled.width, Some(0));
    assert_eq!(compiled.precision, Some(0));
}

#[test]
fn absent_width_and_precision_leave_no_fragment() {
    for (builder, _) in builders() {
        let text = builder.template();
        assert_eq!(text.contains("width$"), builder.width.is_some());
        assert_eq!(text.contains('w'), builder.width.is_some());
        assert_eq!(text.contains(".precision$"), builder.precision.is_some());
        assert_eq!(text.contains('.'), builder.precision.is_some());
        let compiled = builder.compile();
        assert_eq!(compiled.width.is_some(), builder.width.is_some());
        assert_eq!(compiled.precision.is_some(), builder.precision.is_some());
    }
}

#[test]
fn fill_zero_and_zero_pad_are_told_apart() {
    let mut fill = FormatterBuilder::new();
    fill.align(Alignment::Left).fill(Fill::Zero);
    let mut both = FormatterBuilder::new();
    both.align(Alignment::Left).fill(Fill::Zero).sign_aware_zero_pad(true);
    let mut pad = FormatterBuilder::new();
    pad.align(Alignment::Left).sign_aware_zero_pad(true);
    assert_eq!(fill.template(), "{:0<}");
    assert_eq!(both.template(), "{:0<0}");
    assert_eq!(pad.template(), "{:<0}");
}
