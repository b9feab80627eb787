use std::cell::RefCell;
use std::fmt::{self, Display, Formatter, Write};

use formatter_builder::{Alignment, Fill, FormatWith, FormatterBuilder, Sign};

/// Hands the routine in its slot to the formatting machinery as a value to
/// display.
struct Rendered<F>(RefCell<FormatWith<F>>);

impl<F> Display for Rendered<F>
where
    F: FnOnce(&mut Formatter<'_>) -> fmt::Result,
{
    fn fmt(&self, f: &mut Formatter<'_>) -> fmt::Result {
        let mut slot = self.0.borrow_mut();
        assert!(slot.is_loaded());
        let routine = slot.take();
        routine(f)
    }
}

/// Runs `routine` in the formatter that the builder's template describes,
/// for the templates that the tests below need.
fn with<F>(builder: &FormatterBuilder, out: &mut String, routine: F) -> fmt::Result
where
    F: FnOnce(&mut Formatter<'_>) -> fmt::Result,
{
    let compiled = builder.compile();
    let value = Rendered(RefCell::new(FormatWith::new(routine)));
    let width = compiled.width.unwrap_or(0);
    let precision = compiled.precision.unwrap_or(0);
    let text = match compiled.text {
        "{:}" => format!("{:}", value),
        "{:<}" => format!("{:<}", value),
        "{:>}" => format!("{:>}", value),
        "{:^}" => format!("{:^}", value),
        "{:0<}" => format!("{:0<}", value),
        "{: <}" => format!("{: <}", value),
        "{:#}" => format!("{:#}", value),
        "{:0}" => format!("{:0}", value),
        "{:+}" => format!("{:+}", value),
        "{:-}" => format!("{:-}", value),
        "{:width$}" => format!("{:width$}", value),
        "{:.precision$}" => format!("{:.precision$}", value),
        "{:+0width$}" => format!("{:+0width$}", value),
        "{:0>+width$}" => format!("{:0>+width$}", value),
        "{:0width$.precision$}" => format!("{:0width$.precision$}", value),
        other => panic!("no engine call here for {}", other),
    };
    out.write_str(&text)
}

fn engine_alignment(align: Alignment) -> fmt::Alignment {
    match align {
        Alignment::Left => fmt::Alignment::Left,
        Alignment::Right => fmt::Alignment::Right,
        Alignment::Center => fmt::Alignment::Center,
    }
}

#[test]
fn basic_work() {
    let mut out = String::new();
    with(&FormatterBuilder::new(), &mut out, |f| {
        f.write_str("foo")?;
        f.write_str("bar")?;
        Ok(())
    })
    .unwrap();
    assert_eq!(out, "foobar");
}

#[test]
fn align() {
    let aligns = [Alignment::Left, Alignment::Right, Alignment::Center];
    for align in aligns {
        with(FormatterBuilder::new().align(align), &mut String::new(), |f| {
            assert_eq!(f.align(), Some(engine_alignment(align)));
            Ok(())
        })
        .unwrap();
    }
}

#[test]
fn fill() {
    let fills = [Fill::Zero, Fill::Space];
    for fill in fills {
        with(FormatterBuilder::new().align(Alignment::Left).fill(fill), &mut String::new(), |f| {
            assert_eq!(f.fill(), fill.as_char());
            Ok(())
        })
        .unwrap();
    }
}

#[test]
fn alternate() {
    for alt in [true, false] {
        with(FormatterBuilder::new().alternate(alt), &mut String::new(), |f| {
            assert_eq!(f.alternate(), alt);
            Ok(())
        })
        .unwrap();
    }
}

#[test]
fn width() {
    for width in [None, Some(0), Some(1), Some(2), Some(4), Some(256)] {
        with(FormatterBuilder::new().width(width), &mut String::new(), |f| {
            assert_eq!(f.width(), width.map(Into::into));
            Ok(())
        })
        .unwrap();
    }
}

#[test]
fn precision() {
    for precision in [None, Some(0), Some(1), Some(2), Some(4), Some(256)] {
        with(FormatterBuilder::new().precision(precision), &mut String::new(), |f| {
            assert_eq!(f.precision(), precision.map(Into::into));
            Ok(())
        })
        .unwrap();
    }
}

#[test]
fn sign_aware_zero_pad() {
    for sazp in [true, false] {
        with(FormatterBuilder::new().sign_aware_zero_pad(sazp), &mut String::new(), |f| {
            assert_eq!(f.sign_aware_zero_pad(), sazp);
            Ok(())
        })
        .unwrap();
    }
}

#[test]
fn sign() {
    for (sign, exp) in [(Sign::Plus, "+1")] {
        let mut out = String::new();
        with(FormatterBuilder::new().sign(sign), &mut out, |f| {
            Display::fmt(&1, f)?;
            Ok(())
        })
        .unwrap();
        assert_eq!(out, exp);
    }
}

#[test]
fn sign_flags_reach_the_formatter() {
    with(FormatterBuilder::new().sign(Sign::Plus), &mut String::new(), |f| {
        assert!(f.sign_plus());
        assert!(!f.sign_minus());
        Ok(())
    })
    .unwrap();
    with(FormatterBuilder::new().sign(Sign::Minus), &mut String::new(), |f| {
        assert!(f.sign_minus());
        assert!(!f.sign_plus());
        Ok(())
    })
    .unwrap();
}

#[test]
fn width_pads_with_spaces() {
    let mut out = String::new();
    with(FormatterBuilder::new().width(3), &mut out, |f| Display::fmt(&2, f)).unwrap();
    assert_eq!(out, "  2");
    assert_eq!(out, format!("{:3}", 2));
}

#[test]
fn sign_and_zero_pad_and_width() {
    let mut out = String::new();
    with(
        FormatterBuilder::new().sign(Sign::Plus).sign_aware_zero_pad(true).width(3),
        &mut out,
        |f| Display::fmt(&2, f),
    )
    .unwrap();
    assert_eq!(out, "+02");
    assert_eq!(out, format!("{:+03}", 2));
}

#[test]
fn right_aligned_zero_fill_with_sign_and_width() {
    let mut out = String::new();
    with(
        FormatterBuilder::new().align(Alignment::Right).fill(Fill::Zero).sign(Sign::Plus).width(3),
        &mut out,
        |f| Display::fmt(&2, f),
    )
    .unwrap();
    assert_eq!(out, format!("{:0>+3}", 2));
    assert_eq!(out, "0+2");
}

#[test]
fn zero_pad_and_width_and_precision_on_a_float() {
    let mut out = String::new();
    with(
        FormatterBuilder::new().sign_aware_zero_pad(true).width(3).precision(2),
        &mut out,
        |f| Display::fmt(&2.0, f),
    )
    .unwrap();
    assert_eq!(out, "2.00");
    assert_eq!(out, format!("{:03.2}", 2.0));
}

#[test]
fn the_routine_runs_once() {
    let mut runs = 0;
    with(FormatterBuilder::new().width(4), &mut String::new(), |_| {
        runs += 1;
        Ok(())
    })
    .unwrap();
    assert_eq!(runs, 1);
}
