//! Templates compose: a template followed by another that starts with a
//! percent sign is the template of the two, part for part.

use vstd::prelude::*;

use crate::color::ARGB;
use crate::grammar::{
    body_at, channel_at, digits_end, expansion_at, format_at, lemma_digits_end_bounds,
    lemma_literal_end_bounds, lemma_part_advances, literal_at, literal_end, pad_at, parsed,
    part_at, parts_from, MAX_WIDTH_DIGITS,
};
use crate::template::{rendered_parts, PartView};

verus! {

/// Whether `s` starts with `a` and goes on, if it goes on at all, with a
/// percent sign.
pub open spec fn continues_at_percent(a: Seq<char>, s: Seq<char>) -> bool {
    &&& a.len() <= s.len()
    &&& s.take(a.len() as int) == a
    &&& s.len() == a.len() || s[a.len() as int] == '%'
}

/// What was found, with its end moved on by `k`.
pub open spec fn moved<T>(found: Option<(T, int)>, k: int) -> Option<(T, int)> {
    match found {
        Some((value, end)) => Some((value, end + k)),
        None => None,
    }
}

proof fn lemma_same_start(a: Seq<char>, s: Seq<char>)
    requires
        continues_at_percent(a, s),
    ensures
        forall|i: int| 0 <= i < a.len() ==> #[trigger] s[i] == a[i],
        forall|i: int, j: int|
            0 <= i <= j <= a.len() ==> #[trigger] s.subrange(i, j) == a.subrange(i, j),
{
    assert forall|i: int| 0 <= i < a.len() implies #[trigger] s[i] == a[i] by {
        assert(s.take(a.len() as int)[i] == s[i]);
    }
    assert forall|i: int, j: int| 0 <= i <= j <= a.len() implies #[trigger] s.subrange(i, j)
        == a.subrange(i, j) by {
        assert(s.subrange(i, j) =~= a.subrange(i, j));
    }
}

proof fn lemma_literal_end_kept(a: Seq<char>, s: Seq<char>, i: int)
    requires
        continues_at_percent(a, s),
        0 <= i <= a.len(),
    ensures
        literal_end(s, i) == literal_end(a, i),
    decreases a.len() - i,
{
    lemma_same_start(a, s);
    if i < a.len() && a[i] != '%' {
        lemma_literal_end_kept(a, s, i + 1);
    }
}

proof fn lemma_digits_end_kept(a: Seq<char>, s: Seq<char>, i: int, limit: nat)
    requires
        continues_at_percent(a, s),
        0 <= i <= a.len(),
    ensures
        digits_end(s, i, limit) == digits_end(a, i, limit),
    decreases limit,
{
    lemma_same_start(a, s);
    if limit > 0 && i < a.len() {
        lemma_digits_end_kept(a, s, i + 1, (limit - 1) as nat);
    }
}

proof fn lemma_body_kept(a: Seq<char>, s: Seq<char>, i: int)
    requires
        continues_at_percent(a, s),
        0 <= i < a.len(),
    ensures
        pad_at(s, i) == pad_at(a, i),
        body_at(s, i) == body_at(a, i),
{
    lemma_same_start(a, s);
    lemma_digits_end_kept(a, s, i + 1, MAX_WIDTH_DIGITS as nat);
    lemma_digits_end_bounds(a, i + 1, MAX_WIDTH_DIGITS as nat);
    let end = digits_end(a, i + 1, MAX_WIDTH_DIGITS as nat);
    assert(s.subrange(i + 1, end) == a.subrange(i + 1, end));
    assert(pad_at(s, i) == pad_at(a, i));
}

proof fn lemma_part_kept(a: Seq<char>, s: Seq<char>, i: int)
    requires
        continues_at_percent(a, s),
        0 <= i < a.len(),
        part_at(a, i) is Some,
    ensures
        part_at(s, i) == part_at(a, i),
{
    lemma_same_start(a, s);
    lemma_literal_end_kept(a, s, i);
    lemma_literal_end_bounds(a, i);
    let end = literal_end(a, i);
    assert(s.subrange(i, end) == a.subrange(i, end));
    if literal_at(a, i) is None {
        assert(expansion_at(a, i) is Some);
        if a[i + 1] == '{' {
            assert(body_at(a, i + 2) is Some);
            lemma_body_kept(a, s, i + 2);
        }
    }
}

/// The parts of a template stay what they are when more is written behind
/// it, as long as what follows starts with a percent sign.
pub proof fn lemma_parts_kept(a: Seq<char>, s: Seq<char>, i: int)
    requires
        continues_at_percent(a, s),
        0 <= i <= a.len(),
        parts_from(a, i) is Some,
    ensures
        parts_from(s, i) == match parts_from(s, a.len() as int) {
            Some(rest) => Some(parts_from(a, i)->0 + rest),
            None => None,
        },
    decreases a.len() - i,
{
    if i == a.len() {
        if parts_from(s, i) is Some {
            assert(Seq::<PartView>::empty() + parts_from(s, i)->0 =~= parts_from(s, i)->0);
        }
    } else {
        lemma_part_kept(a, s, i);
        lemma_part_advances(a, i);
        let (part, next) = part_at(a, i)->0;
        lemma_parts_kept(a, s, next);
        let tail = parts_from(a, next)->0;
        if parts_from(s, a.len() as int) is Some {
            let rest = parts_from(s, a.len() as int)->0;
            assert(seq![part] + (tail + rest) =~= (seq![part] + tail) + rest);
        }
    }
}

proof fn lemma_literal_end_moved(s: Seq<char>, k: int, i: int)
    requires
        0 <= k <= s.len(),
        0 <= i,
    ensures
        literal_end(s, k + i) == k + literal_end(s.skip(k), i),
    decreases s.len() - k - i,
{
    if k + i < s.len() && s[k + i] != '%' {
        lemma_literal_end_moved(s, k, i + 1);
    }
}

proof fn lemma_digits_end_moved(s: Seq<char>, k: int, i: int, limit: nat)
    requires
        0 <= k <= s.len(),
        0 <= i,
    ensures
        digits_end(s, k + i, limit) == k + digits_end(s.skip(k), i, limit),
    decreases limit,
{
    if limit > 0 && k + i < s.len() {
        lemma_digits_end_moved(s, k, i + 1, (limit - 1) as nat);
    }
}

proof fn lemma_part_moved(s: Seq<char>, k: int, i: int)
    requires
        0 <= k <= s.len(),
        0 <= i,
    ensures
        part_at(s, k + i) == moved(part_at(s.skip(k), i), k),
{
    let t = s.skip(k);
    lemma_literal_end_moved(s, k, i);
    lemma_literal_end_bounds(t, i);
    let end = literal_end(t, i);
    if i <= t.len() {
        assert(s.subrange(k + i, k + end) =~= t.subrange(i, end));
    }
    if literal_at(t, i) is None && i + 1 < t.len() && t[i] == '%' && t[i + 1] == '{' {
        lemma_body_moved(s, k, i + 2);
    }
}

proof fn lemma_body_moved(s: Seq<char>, k: int, i: int)
    requires
        0 <= k <= s.len(),
        0 <= i,
    ensures
        pad_at(s, k + i) == moved(pad_at(s.skip(k), i), k),
        body_at(s, k + i) == moved(body_at(s.skip(k), i), k),
{
    let t = s.skip(k);
    let limit = MAX_WIDTH_DIGITS as nat;
    lemma_digits_end_moved(s, k, i + 1, limit);
    lemma_digits_end_bounds(t, i + 1, limit);
    let end = digits_end(t, i + 1, limit);
    if i + 1 <= t.len() {
        assert(s.subrange(k + i + 1, k + end) =~= t.subrange(i + 1, end));
    }
    assert(pad_at(s, k + i) == moved(pad_at(t, i), k));
    let j = match pad_at(t, i) {
        Some((_, j)) => j,
        None => i,
    };
    assert(format_at(s, k + j) == moved(format_at(t, j), k));
    let m = match format_at(t, j) {
        Some((_, m)) => m,
        None => j,
    };
    assert(channel_at(s, k + m) == moved(channel_at(t, m), k));
}

/// The parts of a template from some place on are the parts of what
/// stands from that place on, taken by itself.
pub proof fn lemma_parts_moved(s: Seq<char>, k: int, i: int)
    requires
        0 <= k <= s.len(),
        0 <= i,
    ensures
        parts_from(s, k + i) == parts_from(s.skip(k), i),
    decreases s.len() - k - i,
{
    let t = s.skip(k);
    if k + i < s.len() {
        lemma_part_moved(s, k, i);
        lemma_part_advances(t, i);
        if part_at(t, i) is Some {
            let (_, next) = part_at(t, i)->0;
            lemma_parts_moved(s, k, next);
        }
    }
}

/// Templates compose. Where `a` is a template and `b` is empty or starts
/// with a percent sign, `a` followed by `b` is a template exactly when `b`
/// is one, and its parts are those of `a` followed by those of `b`.
pub proof fn lemma_templates_compose(a: Seq<char>, b: Seq<char>)
    requires
        parsed(a) is Some,
        b.len() == 0 || b[0] == '%',
    ensures
        parsed(a + b) == match parsed(b) {
            Some(rest) => Some(parsed(a)->0 + rest),
            None => None,
        },
{
    let s = a + b;
    assert(s.take(a.len() as int) =~= a);
    assert(s.skip(a.len() as int) =~= b);
    lemma_parts_kept(a, s, 0);
    lemma_parts_moved(s, a.len() as int, 0);
}

/// What a sequence of parts writes is what its first parts write, followed
/// by what the others write.
pub proof fn lemma_rendering_composes(first: Seq<PartView>, second: Seq<PartView>, color: ARGB)
    ensures
        rendered_parts(first + second, color) == rendered_parts(first, color) + rendered_parts(
            second,
            color,
        ),
{
    let text = |part: PartView| part.rendered(color);
    assert((first + second).map_values(text) =~= first.map_values(text) + second.map_values(text));
    vstd::seq_lib::lemma_flatten_concat(first.map_values(text), second.map_values(text));
}

/// The escape `%%` between two templates is one percent sign between what
/// the two write: wherever it stands in a template, and whatever the
/// colour, it is written as the single character `%`.
pub proof fn lemma_escape_between_templates(a: Seq<char>, b: Seq<char>, color: ARGB)
    requires
        parsed(a) is Some,
        parsed(b) is Some,
    ensures
        parsed(a + seq!['%', '%'] + b) == Some(
            parsed(a)->0 + seq![PartView::Literal(seq!['%'])] + parsed(b)->0,
        ),
        rendered_parts(parsed(a + seq!['%', '%'] + b)->0, color) == rendered_parts(
            parsed(a)->0,
            color,
        ) + seq!['%'] + rendered_parts(parsed(b)->0, color),
{
    let escape = seq!['%', '%'];
    let percent = seq![PartView::Literal(seq!['%'])];
    let t = escape + b;
    assert(t.skip(2) =~= b);
    assert(a + escape + b =~= a + t);
    assert(literal_at(t, 0) is None);
    assert(part_at(t, 0) == Some((PartView::Literal(seq!['%']), 2int)));
    lemma_parts_moved(t, 2, 0);
    assert(parsed(t) == Some(percent + parsed(b)->0));
    lemma_templates_compose(a, t);
    assert(parsed(a)->0 + (percent + parsed(b)->0) =~= parsed(a)->0 + percent + parsed(b)->0);
    lemma_rendering_composes(parsed(a)->0 + percent, parsed(b)->0, color);
    lemma_rendering_composes(parsed(a)->0, percent, color);
    let text = |part: PartView| part.rendered(color);
    assert(percent.map_values(text) =~= seq![seq!['%']]);
    seq![seq!['%']].lemma_flatten_singleton();
}

} // verus!
