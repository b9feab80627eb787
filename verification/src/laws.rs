//! Laws of the setters and of the template compiler.

use vstd::prelude::*;
use crate::builder::FormatterBuilder;
use crate::directive::{Alignment, Fill, Sign};
use crate::template::{
    alignment_fragment, alternate_fragment, fill_align_fragment, framed, precision_fragment,
    sign_fragment, width_fragment, zero_pad_fragment,
};

verus! {

/// Setting the sign again overrides the earlier setting.
pub proof fn lemma_sign_overrides(builder: FormatterBuilder, first: Option<Sign>, second: Option<Sign>)
    ensures
        builder.with_sign(first).with_sign(second) == builder.with_sign(second),
{
}

/// Setting the zero-pad flag again overrides the earlier setting.
pub proof fn lemma_sign_aware_zero_pad_overrides(builder: FormatterBuilder, first: bool, second: bool)
    ensures
        builder.with_sign_aware_zero_pad(first).with_sign_aware_zero_pad(second)
            == builder.with_sign_aware_zero_pad(second),
{
}

/// Setting the alternate flag again overrides the earlier setting.
pub proof fn lemma_alternate_overrides(builder: FormatterBuilder, first: bool, second: bool)
    ensures
        builder.with_alternate(first).with_alternate(second) == builder.with_alternate(second),
{
}

/// Setting the fill again overrides the earlier setting.
pub proof fn lemma_fill_overrides(builder: FormatterBuilder, first: Option<Fill>, second: Option<Fill>)
    ensures
        builder.with_fill(first).with_fill(second) == builder.with_fill(second),
{
}

/// Setting the alignment again overrides the earlier alignment and touches
/// no directive but the fill paired with it. The whole directive set is what
/// the second setting alone leaves, unless the first setting cleared an
/// alignment that had a fill and the second one sets an alignment again:
/// the fill went with the alignment that was cleared.
pub proof fn lemma_align_overrides(
    builder: FormatterBuilder,
    first: Option<Alignment>,
    second: Option<Alignment>,
)
    ensures
        builder.with_align(first).with_align(second).alignment() == second,
        builder.with_align(first).with_align(second) == (FormatterBuilder {
            fill_align: builder.with_align(first).with_align(second).fill_align,
            ..builder
        }),
        first is Some || second is None || builder.fill_value() is None ==> builder.with_align(
            first,
        ).with_align(second) == builder.with_align(second),
{
}

/// Setting the width again overrides the earlier setting.
pub proof fn lemma_width_overrides(builder: FormatterBuilder, first: Option<u16>, second: Option<u16>)
    ensures
        builder.with_width(first).with_width(second) == builder.with_width(second),
{
}

/// Setting the precision again overrides the earlier setting.
pub proof fn lemma_precision_overrides(
    builder: FormatterBuilder,
    first: Option<u16>,
    second: Option<u16>,
)
    ensures
        builder.with_precision(first).with_precision(second) == builder.with_precision(second),
{
}

/// Clearing the sign leaves a template without a sign fragment.
pub proof fn lemma_sign_unset_removes_fragment(builder: FormatterBuilder)
    ensures
        builder.with_sign(None).spec_template() == framed(
            fill_align_fragment(builder.fill_align) + alternate_fragment(builder.alternate)
                + zero_pad_fragment(builder.sign_aware_zero_pad) + width_fragment(
                builder.width is Some,
            ) + precision_fragment(builder.precision is Some),
        ),
{
}

/// Switching the zero-pad flag off leaves a template without its fragment.
pub proof fn lemma_sign_aware_zero_pad_unset_removes_fragment(builder: FormatterBuilder)
    ensures
        builder.with_sign_aware_zero_pad(false).spec_template() == framed(
            fill_align_fragment(builder.fill_align) + sign_fragment(builder.sign)
                + alternate_fragment(builder.alternate) + width_fragment(builder.width is Some)
                + precision_fragment(builder.precision is Some),
        ),
{
}

/// Switching the alternate flag off leaves a template without its fragment.
pub proof fn lemma_alternate_unset_removes_fragment(builder: FormatterBuilder)
    ensures
        builder.with_alternate(false).spec_template() == framed(
            fill_align_fragment(builder.fill_align) + sign_fragment(builder.sign)
                + zero_pad_fragment(builder.sign_aware_zero_pad) + width_fragment(
                builder.width is Some,
            ) + precision_fragment(builder.precision is Some),
        ),
{
}

/// Clearing the fill leaves a template with the alignment's fragment alone
/// in the place of fill and alignment.
pub proof fn lemma_fill_unset_removes_fragment(builder: FormatterBuilder)
    ensures
        builder.with_fill(None).spec_template() == framed(
            alignment_fragment(builder.alignment()) + sign_fragment(builder.sign)
                + alternate_fragment(builder.alternate) + zero_pad_fragment(
                builder.sign_aware_zero_pad,
            ) + width_fragment(builder.width is Some) + precision_fragment(
                builder.precision is Some,
            ),
        ),
{
}

/// Clearing the alignment leaves a template without a fragment of fill and
/// alignment.
pub proof fn lemma_align_unset_removes_fragment(builder: FormatterBuilder)
    ensures
        builder.with_align(None).spec_template() == framed(
            sign_fragment(builder.sign) + alternate_fragment(builder.alternate)
                + zero_pad_fragment(builder.sign_aware_zero_pad) + width_fragment(
                builder.width is Some,
            ) + precision_fragment(builder.precision is Some),
        ),
{
}

/// Clearing the width leaves a template without a width fragment.
pub proof fn lemma_width_unset_removes_fragment(builder: FormatterBuilder)
    ensures
        builder.with_width(None).spec_template() == framed(
            fill_align_fragment(builder.fill_align) + sign_fragment(builder.sign)
                + alternate_fragment(builder.alternate) + zero_pad_fragment(
                builder.sign_aware_zero_pad,
            ) + precision_fragment(builder.precision is Some),
        ),
{
}

/// Clearing the precision leaves a template without a precision fragment.
pub proof fn lemma_precision_unset_removes_fragment(builder: FormatterBuilder)
    ensures
        builder.with_precision(None).spec_template() == framed(
            fill_align_fragment(builder.fill_align) + sign_fragment(builder.sign)
                + alternate_fragment(builder.alternate) + zero_pad_fragment(
                builder.sign_aware_zero_pad,
            ) + width_fragment(builder.width is Some),
        ),
{
}

/// Once an alignment is set, a fill may be set, and it shows in the
/// template: the fragment of fill and alignment is the fill's character
/// before the alignment's, and the text differs from the one without fill.
pub proof fn lemma_fill_after_align(builder: FormatterBuilder, align: Alignment, fill: Fill)
    ensures
        builder.with_align(Some(align)).fill_align is Some,
        builder.with_align(Some(align)).with_fill(Some(fill)).fill_align == Some(
            (Some(fill), align),
        ),
        fill_align_fragment(builder.with_align(Some(align)).with_fill(Some(fill)).fill_align)
            == seq![fill.spec_char(), align.spec_char()],
        builder.with_align(Some(align)).with_fill(Some(fill)).spec_template() != builder.with_align(
            Some(align),
        ).with_fill(None).spec_template(),
{
    let aligned = builder.with_align(Some(align));
    lemma_template_identifies_states(aligned.with_fill(Some(fill)), aligned.with_fill(None));
}

/// A character occurs in a concatenation exactly where it occurs in a part.
proof fn lemma_contains_add(x: Seq<char>, y: Seq<char>, c: char)
    ensures
        (x + y).contains(c) <==> x.contains(c) || y.contains(c),
{
    let s = x + y;
    if x.contains(c) {
        let i = choose|i: int| 0 <= i < x.len() && x[i] == c;
        assert(s[i] == c);
    }
    if y.contains(c) {
        let i = choose|i: int| 0 <= i < y.len() && y[i] == c;
        assert(s[x.len() + i] == c);
    }
    if s.contains(c) {
        let i = choose|i: int| 0 <= i < s.len() && s[i] == c;
        if i < x.len() {
            assert(x[i] == c);
        } else {
            assert(y[i - x.len()] == c);
        }
    }
}

/// Whether a character occurs in a template, fragment by fragment.
proof fn lemma_template_contains(builder: FormatterBuilder, c: char)
    ensures
        builder.spec_template().contains(c) <==> {
            ||| c == '{'
            ||| c == ':'
            ||| fill_align_fragment(builder.fill_align).contains(c)
            ||| sign_fragment(builder.sign).contains(c)
            ||| alternate_fragment(builder.alternate).contains(c)
            ||| zero_pad_fragment(builder.sign_aware_zero_pad).contains(c)
            ||| width_fragment(builder.width is Some).contains(c)
            ||| precision_fragment(builder.precision is Some).contains(c)
            ||| c == '}'
        },
{
    let open = seq!['{', ':'];
    let close = seq!['}'];
    let a = fill_align_fragment(builder.fill_align);
    let b = sign_fragment(builder.sign);
    let c3 = alternate_fragment(builder.alternate);
    let d = zero_pad_fragment(builder.sign_aware_zero_pad);
    let e = width_fragment(builder.width is Some);
    let f = precision_fragment(builder.precision is Some);
    lemma_contains_add(open + (a + b + c3 + d + e + f), close, c);
    lemma_contains_add(open, a + b + c3 + d + e + f, c);
    lemma_contains_add(a + b + c3 + d + e, f, c);
    lemma_contains_add(a + b + c3 + d, e, c);
    lemma_contains_add(a + b + c3, d, c);
    lemma_contains_add(a + b, c3, c);
    lemma_contains_add(a, b, c);
    assert(open.contains(c) <==> c == '{' || c == ':') by {
        if c == '{' {
            assert(open[0] == c);
        }
        if c == ':' {
            assert(open[1] == c);
        }
    }
    assert(close.contains(c) <==> c == '}') by {
        if c == '}' {
            assert(close[0] == c);
        }
    }
}

/// A template refers to the parameter `width` exactly where a width is set,
/// whatever number it is set to: without a width the text has no width
/// fragment, and the letter `w`, which only that fragment holds, occurs
/// nowhere in it.
pub proof fn lemma_width_fragment_iff_set(builder: FormatterBuilder)
    ensures
        builder.spec_template().contains('w') <==> builder.width is Some,
        builder.width is None ==> builder.spec_template() == framed(
            fill_align_fragment(builder.fill_align) + sign_fragment(builder.sign)
                + alternate_fragment(builder.alternate) + zero_pad_fragment(
                builder.sign_aware_zero_pad,
            ) + precision_fragment(builder.precision is Some),
        ),
        forall|n: u16|
            builder.width is Some ==> #[trigger] builder.with_width(Some(n)).spec_template()
                == builder.spec_template(),
{
    lemma_template_contains(builder, 'w');
    if builder.width is Some {
        assert(width_fragment(true)[0] == 'w');
    }
}

/// A template refers to the parameter `precision` exactly where a precision
/// is set, whatever number it is set to: without a precision the text has
/// no precision fragment, and the dot, which only that fragment holds,
/// occurs nowhere in it.
pub proof fn lemma_precision_fragment_iff_set(builder: FormatterBuilder)
    ensures
        builder.spec_template().contains('.') <==> builder.precision is Some,
        builder.precision is None ==> builder.spec_template() == framed(
            fill_align_fragment(builder.fill_align) + sign_fragment(builder.sign)
                + alternate_fragment(builder.alternate) + zero_pad_fragment(
                builder.sign_aware_zero_pad,
            ) + width_fragment(builder.width is Some),
        ),
        forall|n: u16|
            builder.precision is Some ==> #[trigger] builder.with_precision(
                Some(n),
            ).spec_template() == builder.spec_template(),
{
    lemma_template_contains(builder, '.');
    if builder.precision is Some {
        assert(precision_fragment(true)[0] == '.');
    }
}

/// What follows the flags in a template: the fragments of width and
/// precision and the closing brace.
spec fn parameters_tail(width: bool, precision: bool) -> Seq<char> {
    width_fragment(width) + (precision_fragment(precision) + seq!['}'])
}

/// What follows fill and alignment in a template.
spec fn flags_tail(
    sign: Option<Sign>,
    alternate: bool,
    zero_pad: bool,
    width: bool,
    precision: bool,
) -> Seq<char> {
    sign_fragment(sign) + (alternate_fragment(alternate) + (zero_pad_fragment(zero_pad)
        + parameters_tail(width, precision)))
}

/// Two sequences that agree after prefixes of one length agree part by part.
proof fn lemma_split(x1: Seq<char>, r1: Seq<char>, x2: Seq<char>, r2: Seq<char>)
    requires
        x1 + r1 == x2 + r2,
        x1.len() == x2.len(),
    ensures
        x1 == x2,
        r1 == r2,
{
    let s1 = x1 + r1;
    let s2 = x2 + r2;
    assert(s1.len() == x1.len() + r1.len());
    assert(s2.len() == x2.len() + r2.len());
    assert forall|i: int| 0 <= i < x1.len() implies x1[i] == x2[i] by {
        assert(s1[i] == x1[i]);
        assert(s2[i] == x2[i]);
    }
    assert(x1 =~= x2);
    assert forall|i: int| 0 <= i < r1.len() implies r1[i] == r2[i] by {
        assert(s1[x1.len() + i] == r1[i]);
        assert(s2[x2.len() + i] == r2[i]);
    }
    assert(r1 =~= r2);
}

/// The tail after the flags tells whether width and precision are set.
proof fn lemma_parameters_tail_identifies(w1: bool, p1: bool, w2: bool, p2: bool)
    requires
        parameters_tail(w1, p1) == parameters_tail(w2, p2),
    ensures
        w1 == w2,
        p1 == p2,
{
    let t1 = parameters_tail(w1, p1);
    let t2 = parameters_tail(w2, p2);
    assert(t1[0] == t2[0]);
    assert(w1 == w2);
    lemma_split(
        width_fragment(w1),
        precision_fragment(p1) + seq!['}'],
        width_fragment(w2),
        precision_fragment(p2) + seq!['}'],
    );
    assert((precision_fragment(p1) + seq!['}'])[0] == (precision_fragment(p2) + seq!['}'])[0]);
}

/// The tail after fill and alignment tells the state of every directive in
/// it.
proof fn lemma_flags_tail_identifies(
    s1: Option<Sign>,
    a1: bool,
    z1: bool,
    w1: bool,
    p1: bool,
    s2: Option<Sign>,
    a2: bool,
    z2: bool,
    w2: bool,
    p2: bool,
)
    requires
        flags_tail(s1, a1, z1, w1, p1) == flags_tail(s2, a2, z2, w2, p2),
    ensures
        s1 == s2,
        a1 == a2,
        z1 == z2,
        w1 == w2,
        p1 == p2,
{
    let q1 = parameters_tail(w1, p1);
    let q2 = parameters_tail(w2, p2);
    let zt1 = zero_pad_fragment(z1) + q1;
    let zt2 = zero_pad_fragment(z2) + q2;
    let at1 = alternate_fragment(a1) + zt1;
    let at2 = alternate_fragment(a2) + zt2;
    let t1 = flags_tail(s1, a1, z1, w1, p1);
    let t2 = flags_tail(s2, a2, z2, w2, p2);
    assert(q1[0] == 'w' || q1[0] == '.' || q1[0] == '}');
    assert(q2[0] == 'w' || q2[0] == '.' || q2[0] == '}');
    assert(zt1[0] == '0' || zt1[0] == q1[0]);
    assert(zt2[0] == '0' || zt2[0] == q2[0]);
    assert(at1[0] == '#' || at1[0] == zt1[0]);
    assert(at2[0] == '#' || at2[0] == zt2[0]);
    assert(t1[0] == t2[0]);
    assert(s1 == s2);
    lemma_split(sign_fragment(s1), at1, sign_fragment(s2), at2);
    assert(at1[0] == at2[0]);
    assert(a1 == a2);
    lemma_split(alternate_fragment(a1), zt1, alternate_fragment(a2), zt2);
    assert(zt1[0] == zt2[0]);
    assert(z1 == z2);
    lemma_split(zero_pad_fragment(z1), q1, zero_pad_fragment(z2), q2);
    lemma_parameters_tail_identifies(w1, p1, w2, p2);
}

/// What may follow fill and alignment: the first character is no alignment
/// character and no space, and where it is `0`, the character after it is no
/// alignment character either.
spec fn follows_fill_align(tail: Seq<char>) -> bool {
    &&& tail.len() >= 1
    &&& tail[0] != '<' && tail[0] != '>' && tail[0] != '^' && tail[0] != ' '
    &&& tail[0] == '0' ==> tail.len() >= 2 && tail[1] != '<' && tail[1] != '>' && tail[1] != '^'
}

/// Every tail of flags may follow fill and alignment.
proof fn lemma_flags_tail_follows(
    sign: Option<Sign>,
    alternate: bool,
    zero_pad: bool,
    width: bool,
    precision: bool,
)
    ensures
        follows_fill_align(flags_tail(sign, alternate, zero_pad, width, precision)),
{
    let q = parameters_tail(width, precision);
    let zt = zero_pad_fragment(zero_pad) + q;
    let at = alternate_fragment(alternate) + zt;
    let tail = flags_tail(sign, alternate, zero_pad, width, precision);
    assert(q[0] == 'w' || q[0] == '.' || q[0] == '}');
    assert(zt[0] == '0' || zt[0] == q[0]);
    assert(zt[0] == '0' ==> zt[1] == q[0]);
    assert(at[0] == '#' || at == zt);
    assert(tail[0] == '+' || tail[0] == '-' || tail == at);
}

/// The fragment of fill and alignment is told apart from what follows it.
proof fn lemma_fill_align_identifies(
    fill_align1: Option<(Option<Fill>, Alignment)>,
    tail1: Seq<char>,
    fill_align2: Option<(Option<Fill>, Alignment)>,
    tail2: Seq<char>,
)
    requires
        fill_align_fragment(fill_align1) + tail1 == fill_align_fragment(fill_align2) + tail2,
        follows_fill_align(tail1),
        follows_fill_align(tail2),
    ensures
        fill_align1 == fill_align2,
        tail1 == tail2,
{
    let f1 = fill_align_fragment(fill_align1);
    let f2 = fill_align_fragment(fill_align2);
    assert((f1 + tail1)[0] == (f2 + tail2)[0]);
    assert((f1 + tail1)[1] == (f2 + tail2)[1]);
    assert(f1.len() == f2.len());
    lemma_split(f1, tail1, f2, tail2);
    if f1.len() >= 1 {
        assert(f1[0] == f2[0]);
    }
    if f1.len() >= 2 {
        assert(f1[1] == f2[1]);
    }
}

/// A framed body of six fragments, read fragment by fragment from the left.
proof fn lemma_regroup(
    open: Seq<char>,
    a: Seq<char>,
    b: Seq<char>,
    c: Seq<char>,
    d: Seq<char>,
    e: Seq<char>,
    f: Seq<char>,
    close: Seq<char>,
)
    ensures
        open + (a + b + c + d + e + f) + close == open + (a + (b + (c + (d + (e + (f + close)))))),
{
    assert(open + (a + b + c + d + e + f) + close =~= open + (a + (b + (c + (d + (e + (f
        + close)))))));
}

/// A template is its opening, then fill and alignment, then the tail of
/// flags.
proof fn lemma_template_parts(builder: FormatterBuilder)
    ensures
        builder.spec_template() == seq!['{', ':'] + (fill_align_fragment(builder.fill_align)
            + flags_tail(
            builder.sign,
            builder.alternate,
            builder.sign_aware_zero_pad,
            builder.width is Some,
            builder.precision is Some,
        )),
{
    lemma_regroup(
        seq!['{', ':'],
        fill_align_fragment(builder.fill_align),
        sign_fragment(builder.sign),
        alternate_fragment(builder.alternate),
        zero_pad_fragment(builder.sign_aware_zero_pad),
        width_fragment(builder.width is Some),
        precision_fragment(builder.precision is Some),
        seq!['}'],
    );
}

/// Two directive sets agree on the state of every directive, where of width
/// and precision only whether they are set counts.
pub open spec fn same_states(a: FormatterBuilder, b: FormatterBuilder) -> bool {
    &&& a.fill_align == b.fill_align
    &&& a.sign == b.sign
    &&& a.alternate == b.alternate
    &&& a.sign_aware_zero_pad == b.sign_aware_zero_pad
    &&& (a.width is Some <==> b.width is Some)
    &&& (a.precision is Some <==> b.precision is Some)
}

/// Each combination of directive states has a template of its own: two
/// directive sets compile to one text exactly when they agree on every
/// state.
pub proof fn lemma_template_identifies_states(a: FormatterBuilder, b: FormatterBuilder)
    ensures
        a.spec_template() == b.spec_template() <==> same_states(a, b),
{
    if a.spec_template() == b.spec_template() {
        let t1 = flags_tail(
            a.sign,
            a.alternate,
            a.sign_aware_zero_pad,
            a.width is Some,
            a.precision is Some,
        );
        let t2 = flags_tail(
            b.sign,
            b.alternate,
            b.sign_aware_zero_pad,
            b.width is Some,
            b.precision is Some,
        );
        lemma_template_parts(a);
        lemma_template_parts(b);
        lemma_split(
            seq!['{', ':'],
            fill_align_fragment(a.fill_align) + t1,
            seq!['{', ':'],
            fill_align_fragment(b.fill_align) + t2,
        );
        lemma_flags_tail_follows(
            a.sign,
            a.alternate,
            a.sign_aware_zero_pad,
            a.width is Some,
            a.precision is Some,
        );
        lemma_flags_tail_follows(
            b.sign,
            b.alternate,
            b.sign_aware_zero_pad,
            b.width is Some,
            b.precision is Some,
        );
        lemma_fill_align_identifies(a.fill_align, t1, b.fill_align, t2);
        lemma_flags_tail_identifies(
            a.sign,
            a.alternate,
            a.sign_aware_zero_pad,
            a.width is Some,
            a.precision is Some,
            b.sign,
            b.alternate,
            b.sign_aware_zero_pad,
            b.width is Some,
            b.precision is Some,
        );
    }
}

} // verus!
