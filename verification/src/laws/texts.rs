//! What holds of texts that are taken apart and put together.

use vstd::prelude::*;

use crate::codegen::interp::{add_lit_spec, brace_end_spec, printf_char_spec, printf_escape_spec, printf_from_spec, sources_of_spec, split_from_raw_spec, split_interpolation_spec};
use crate::codegen::quote::{SegV, has_interpolation_spec, interpolates_at_spec};
use crate::lexer::{at_spec, cut_spec, word_end_spec};
use crate::parser::pp::{trim_spec, white, white_end_spec, white_start_spec};
use crate::strings::{find_char_spec, join_from_spec, join_spec, matches_at_spec, split_from_spec, split_once_from_spec, split_once_spec, split_spec};

verus! {

broadcast use {crate::codegen::quote::group_quote, crate::text::group_texts};

proof fn first_found(cs: Seq<char>, c: char, i: int)
    requires
        0 <= i <= cs.len(),
    ensures
        i <= find_char_spec(cs, c, i) <= cs.len(),
        forall|k: int| i <= k < find_char_spec(cs, c, i) ==> #[trigger] cs[k] != c,
        find_char_spec(cs, c, i) < cs.len() ==> cs[find_char_spec(cs, c, i)] == c,
    decreases cs.len() - i,
{
    if i < cs.len() && cs[i] != c {
        first_found(cs, c, i + 1);
    }
}

proof fn joined_more(v: Seq<Seq<char>>, more: Seq<Seq<char>>, sep: Seq<char>, i: int, out: Seq<char>)
    requires
        0 <= i <= v.len(),
        0 < v.len(),
    ensures
        join_from_spec(v + more, sep, i, out) == join_from_spec(v + more, sep, v.len() as int, join_from_spec(v, sep, i, out)),
    decreases v.len() - i,
{
    if i < v.len() {
        assert((v + more)[i] == v[i]);
        joined_more(v, more, sep, i + 1, if i > 0 { out + sep + v[i] } else { out + v[i] });
    }
}

proof fn joined_last(v: Seq<Seq<char>>, last: Seq<char>, sep: Seq<char>)
    ensures
        join_spec(v.push(last), sep) == (if v.len() == 0 { last } else { join_spec(v, sep) + sep + last }),
{
    let more = seq![last];
    let all = v.push(last);
    assert(v + more =~= all);
    let n = v.len() as int;
    if n == 0 {
        let none = Seq::<char>::empty();
        assert(join_from_spec(all, sep, 1, none + all[0]) == none + all[0]);
        assert(none + all[0] =~= last);
    } else {
        joined_more(v, more, sep, 0, Seq::empty());
        let out = join_spec(v, sep);
        assert(join_from_spec(all, sep, n + 1, out + sep + all[n]) == out + sep + all[n]);
    }
}

proof fn pieces_from(cs: Seq<char>, c: char, start: int, out: Seq<Seq<char>>)
    requires
        0 <= start <= cs.len(),
        start == 0 <==> out.len() == 0,
        start > 0 ==> join_spec(out, seq![c]) + seq![c] == cs.subrange(0, start),
        forall|k: int| 0 <= k < out.len() ==> !(#[trigger] out[k]).contains(c),
    ensures
        ({
            let all = split_from_spec(cs, c, start, out);
            &&& join_spec(all, seq![c]) == cs
            &&& all.len() > 0
            &&& forall|k: int| 0 <= k < all.len() ==> !(#[trigger] all[k]).contains(c)
        }),
    decreases cs.len() - start,
{
    let e = find_char_spec(cs, c, start);
    first_found(cs, c, start);
    let piece = cs.subrange(start, e);
    assert(!piece.contains(c)) by {
        if piece.contains(c) {
            let k = choose|k: int| 0 <= k < piece.len() && piece[k] == c;
            assert(cs[start + k] == c);
        }
    }
    let more = out.push(piece);
    joined_last(out, piece, seq![c]);
    assert(join_spec(more, seq![c]) =~= cs.subrange(0, e));
    assert forall|k: int| 0 <= k < more.len() implies !(#[trigger] more[k]).contains(c) by {
        if k < out.len() {
            assert(more[k] == out[k]);
        }
    }
    if e < cs.len() {
        assert(cs.subrange(0, e) + seq![c] =~= cs.subrange(0, e + 1));
        pieces_from(cs, c, e + 1, more);
    } else {
        assert(cs.subrange(0, e) =~= cs);
    }
}

/// The pieces of a text hold no separator, and with the separator between them they are the
/// text again.
pub proof fn law_join_undoes_split(s: Seq<char>, c: char)
    ensures
        join_spec(split_spec(s, c), seq![c]) == s,
        split_spec(s, c).len() > 0,
        forall|k: int| 0 <= k < split_spec(s, c).len() ==> !(#[trigger] split_spec(s, c)[k]).contains(c),
{
    pieces_from(s, c, 0, Seq::empty());
}

proof fn matched(cs: Seq<char>, p: Seq<char>, i: int, j: int)
    requires
        0 <= i,
        0 <= j <= p.len(),
        i + p.len() <= cs.len(),
    ensures
        matches_at_spec(cs, p, i, j) == (forall|k: int| j <= k < p.len() ==> cs[i + k] == #[trigger] p[k]),
    decreases p.len() - j,
{
    if j < p.len() {
        matched(cs, p, i, j + 1);
        assert(at_spec(cs, i + j, 0) == cs[i + j]);
        assert(at_spec(p, j, 0) == p[j]);
    }
}

/// Whether `p` stands in the text at `i`.
pub open spec fn stands_at(cs: Seq<char>, p: Seq<char>, i: int) -> bool {
    0 <= i && i + p.len() <= cs.len() && cs.subrange(i, i + p.len()) == p
}

proof fn matched_at(cs: Seq<char>, p: Seq<char>, i: int)
    requires
        0 <= i,
        i + p.len() <= cs.len(),
    ensures
        matches_at_spec(cs, p, i, 0) == stands_at(cs, p, i),
{
    matched(cs, p, i, 0);
    let here = cs.subrange(i, i + p.len());
    if matches_at_spec(cs, p, i, 0) {
        assert(here =~= p);
    } else {
        let k = choose|k: int| 0 <= k < p.len() && cs[i + k] != #[trigger] p[k];
        assert(here[k] == cs[i + k]);
    }
}

proof fn split_once_at(cs: Seq<char>, sep: Seq<char>, i: int)
    requires
        0 <= i <= cs.len(),
        sep.len() > 0,
        forall|k: int| 0 <= k < i ==> !#[trigger] stands_at(cs, sep, k),
    ensures
        match split_once_from_spec(cs, sep, i) {
            Some((a, b)) => {
                &&& a + sep + b == cs
                &&& forall|k: int| 0 <= k < a.len() ==> !#[trigger] stands_at(cs, sep, k)
            },
            None => forall|k: int| !#[trigger] stands_at(cs, sep, k),
        },
    decreases cs.len() - i,
{
    if i < cs.len() && sep.len() <= cs.len() - i {
        matched_at(cs, sep, i);
        if stands_at(cs, sep, i) {
            let a = cs.subrange(0, i);
            let b = cs.subrange(i + sep.len(), cs.len() as int);
            assert(a + sep + b =~= cs) by {
                assert forall|k: int| i <= k < i + sep.len() implies cs[k] == #[trigger] sep[k - i] by {
                    assert(cs.subrange(i, i + sep.len())[k - i] == cs[k]);
                }
            }
        } else {
            split_once_at(cs, sep, i + 1);
        }
    }
}

/// A text is cut at the first place where the separator stands, which is left out; it is not
/// cut where the separator stands nowhere.
pub proof fn law_cut_at_the_first_separator(s: Seq<char>, sep: Seq<char>)
    requires
        sep.len() > 0,
    ensures
        match split_once_spec(s, sep) {
            Some((a, b)) => {
                &&& a + sep + b == s
                &&& forall|k: int| 0 <= k < a.len() ==> !#[trigger] stands_at(s, sep, k)
            },
            None => forall|k: int| !#[trigger] stands_at(s, sep, k),
        },
{
    split_once_at(s, sep, 0);
}

// ---- white space ------------------------------------------------------------------------

proof fn white_in_front(cs: Seq<char>, b: int, i: int)
    requires
        0 <= i <= b <= cs.len(),
    ensures
        i <= white_end_spec(cs, b, i) <= b,
        forall|k: int| i <= k < white_end_spec(cs, b, i) ==> white(#[trigger] cs[k]),
        white_end_spec(cs, b, i) < b ==> !white(cs[white_end_spec(cs, b, i)]),
    decreases b - i,
{
    if i < b && white(cs[i]) {
        white_in_front(cs, b, i + 1);
    }
}

proof fn white_behind(cs: Seq<char>, a: int, b: int)
    requires
        0 <= a <= b <= cs.len(),
    ensures
        a <= white_start_spec(cs, a, b) <= b,
        forall|k: int| white_start_spec(cs, a, b) <= k < b ==> white(#[trigger] cs[k]),
        a < white_start_spec(cs, a, b) ==> !white(cs[white_start_spec(cs, a, b) - 1]),
    decreases b - a,
{
    if a < b && white(cs[b - 1]) {
        white_behind(cs, a, b - 1);
    }
}

/// Whether a text is what is left of another one between two places, with white space around
/// it and none at its ends.
pub open spec fn is_trimmed_at(s: Seq<char>, r: Seq<char>, a: int, b: int) -> bool {
    &&& 0 <= a <= b <= s.len()
    &&& r == s.subrange(a, b)
    &&& forall|k: int| 0 <= k < a || b <= k < s.len() ==> white(#[trigger] s[k])
    &&& r.len() > 0 ==> !white(r[0]) && !white(r.last())
}

/// A trimmed text is the text without the white space around it.
pub proof fn law_trimmed_text(s: Seq<char>)
    ensures
        exists|a: int, b: int| #[trigger] is_trimmed_at(s, trim_spec(s), a, b),
{
    let n = s.len() as int;
    white_in_front(s, n, 0);
    let a = white_end_spec(s, n, 0);
    white_behind(s, a, n);
    let b = white_start_spec(s, a, n);
    assert(is_trimmed_at(s, trim_spec(s), a, b));
}

/// Trimming a text again changes nothing.
pub proof fn law_trimmed_once(s: Seq<char>)
    ensures
        trim_spec(trim_spec(s)) == trim_spec(s),
{
    law_trimmed_text(s);
    let r = trim_spec(s);
    let n = r.len() as int;
    white_in_front(r, n, 0);
    let a = white_end_spec(r, n, 0);
    white_behind(r, a, n);
    assert(r.subrange(0, n) =~= r);
}

// ---- interpolation ----------------------------------------------------------------------

proof fn literal_run(cs: Seq<char>, i: int, lit: Seq<char>, segs: Seq<SegV>)
    requires
        0 <= i <= cs.len(),
        forall|k: int| 0 <= k < cs.len() ==> !#[trigger] interpolates_at_spec(cs, k),
    ensures
        split_from_raw_spec(cs, i, lit, segs) == add_lit_spec(segs, lit + cs.skip(i)),
    decreases cs.len() - i,
{
    if i < cs.len() {
        assert(!interpolates_at_spec(cs, i));
        literal_run(cs, i + 1, lit.push(cs[i]), segs);
        assert(lit.push(cs[i]) + cs.skip(i + 1) =~= lit + cs.skip(i));
    } else {
        assert(lit + cs.skip(i) =~= lit);
    }
}

/// A text that interpolates nothing is one literal.
pub proof fn law_plain_text_is_one_literal(raw: Seq<char>)
    requires
        !has_interpolation_spec(raw),
        raw.len() > 0,
    ensures
        split_interpolation_spec(raw) == (seq![SegV::Lit(raw)], Seq::<Seq<char>>::empty()),
{
    literal_run(raw, 0, Seq::empty(), Seq::empty());
    assert(Seq::<char>::empty() + raw.skip(0) =~= raw);
    let one = seq![SegV::Lit(raw)];
    assert(Seq::<SegV>::empty().push(SegV::Lit(raw)) =~= one);
    assert(sources_of_spec(one, 1, Seq::empty()) == Seq::<Seq<char>>::empty());
}

/// Whether a segment is the source of an expression.
pub open spec fn is_code(s: SegV) -> bool {
    s is Code
}

proof fn segments_grow(cs: Seq<char>, i: int, lit: Seq<char>, segs: Seq<SegV>, k: int)
    requires
        0 <= i <= cs.len(),
        0 <= k < segs.len(),
    ensures
        split_from_raw_spec(cs, i, lit, segs).len() > k,
        split_from_raw_spec(cs, i, lit, segs)[k] == segs[k],
    decreases cs.len() - i,
{
    if i < cs.len() {
        let more = add_lit_spec(segs, lit);
        assert(more[k] == segs[k]);
        if at_spec(cs, i, 0) == '$' && at_spec(cs, i, 1) == '{' {
            brace_ends(cs, i + 2, 1);
            let j = brace_end_spec(cs, i + 2, 1);
            segments_grow(cs, if j < cs.len() { j + 1 } else { j }, Seq::empty(), more.push(SegV::Code(cut_spec(cs, i + 2, j))), k);
        } else if interpolates_at_spec(cs, i) {
            word_ends(cs, i + 1);
            let j = word_end_spec(cs, i + 1);
            segments_grow(cs, j, Seq::empty(), more.push(SegV::Code(cut_spec(cs, i + 1, j))), k);
        } else {
            segments_grow(cs, i + 1, lit.push(cs[i]), segs, k);
        }
    }
}

proof fn brace_ends(cs: Seq<char>, i: int, depth: int)
    requires
        0 <= i <= cs.len(),
    ensures
        i <= brace_end_spec(cs, i, depth) <= cs.len(),
    decreases cs.len() - i,
{
    if i < cs.len() {
        brace_ends(cs, i + 1, depth);
        brace_ends(cs, i + 1, depth + 1);
        brace_ends(cs, i + 1, depth - 1);
    }
}

proof fn word_ends(cs: Seq<char>, i: int)
    requires
        0 <= i <= cs.len(),
    ensures
        i <= word_end_spec(cs, i) <= cs.len(),
    decreases cs.len() - i,
{
    if i < cs.len() {
        word_ends(cs, i + 1);
    }
}

proof fn interpolation_makes_code(cs: Seq<char>, i: int, lit: Seq<char>, segs: Seq<SegV>, at: int)
    requires
        0 <= i <= at < cs.len(),
        interpolates_at_spec(cs, at),
    ensures
        exists|k: int| 0 <= k < split_from_raw_spec(cs, i, lit, segs).len() && is_code(#[trigger] split_from_raw_spec(cs, i, lit, segs)[k]),
    decreases at - i,
{
    let all = split_from_raw_spec(cs, i, lit, segs);
    let more = add_lit_spec(segs, lit);
    let k = more.len() as int;
    if at_spec(cs, i, 0) == '$' && at_spec(cs, i, 1) == '{' {
        brace_ends(cs, i + 2, 1);
        let j = brace_end_spec(cs, i + 2, 1);
        let next = more.push(SegV::Code(cut_spec(cs, i + 2, j)));
        segments_grow(cs, if j < cs.len() { j + 1 } else { j }, Seq::empty(), next, k);
        assert(all[k] == next[k] && is_code(all[k]));
    } else if interpolates_at_spec(cs, i) {
        word_ends(cs, i + 1);
        let j = word_end_spec(cs, i + 1);
        let next = more.push(SegV::Code(cut_spec(cs, i + 1, j)));
        segments_grow(cs, j, Seq::empty(), next, k);
        assert(all[k] == next[k] && is_code(all[k]));
    } else {
        interpolation_makes_code(cs, i + 1, lit.push(cs[i]), segs, at);
    }
}

proof fn code_has_a_source(segs: Seq<SegV>, i: int, out: Seq<Seq<char>>, k: int)
    requires
        0 <= i <= segs.len(),
        out.len() > 0 || (i <= k < segs.len() && is_code(segs[k])),
    ensures
        sources_of_spec(segs, i, out).len() > 0,
    decreases segs.len() - i,
{
    if i < segs.len() {
        let next = match segs[i] {
            SegV::Code(src) => out.push(src),
            SegV::Lit(_) => out,
        };
        code_has_a_source(segs, i + 1, next, k);
    }
}

/// A text interpolates something exactly where splitting it gives an expression.
pub proof fn law_interpolation_has_an_expression(raw: Seq<char>)
    ensures
        has_interpolation_spec(raw) <==> split_interpolation_spec(raw).1.len() > 0,
{
    let segs = split_from_raw_spec(raw, 0, Seq::empty(), Seq::empty());
    if has_interpolation_spec(raw) {
        let at = choose|i: int| 0 <= i < raw.len() && #[trigger] interpolates_at_spec(raw, i);
        interpolation_makes_code(raw, 0, Seq::empty(), Seq::empty(), at);
        let k = choose|k: int| 0 <= k < segs.len() && is_code(#[trigger] segs[k]);
        code_has_a_source(segs, 0, Seq::empty(), k);
    } else if raw.len() > 0 {
        law_plain_text_is_one_literal(raw);
    } else {
        assert(segs == add_lit_spec(Seq::empty(), Seq::empty()));
    }
}

/// What C++ prints for a format without conversions: a backslash stands for the character
/// behind it, and so does a percent sign.
pub open spec fn printed(format: Seq<char>) -> Seq<char>
    decreases format.len(),
{
    if format.len() == 0 {
        Seq::empty()
    } else if format.len() >= 2 && (format[0] == '\\' || format[0] == '%') {
        seq![format[1]] + printed(format.skip(2))
    } else {
        seq![format[0]] + printed(format.skip(1))
    }
}

proof fn printed_character(c: char, rest: Seq<char>)
    ensures
        printed(printf_char_spec(c) + rest) == seq![c] + printed(rest),
{
    reveal_strlit("\\\\");
    reveal_strlit("\\\"");
    reveal_strlit("%%");
    let format = printf_char_spec(c) + rest;
    if c == '\\' || c == '"' || c == '%' {
        assert(printf_char_spec(c).len() == 2);
        assert(format.skip(2) =~= rest);
        assert(format[1] == c);
    } else {
        assert(printf_char_spec(c) =~= seq![c]);
        assert(format.skip(1) =~= rest);
    }
}

/// The format of a text, character by character.
pub open spec fn formatted(s: Seq<char>) -> Seq<char>
    decreases s.len(),
{
    if s.len() == 0 {
        Seq::empty()
    } else {
        printf_char_spec(s[0]) + formatted(s.skip(1))
    }
}

proof fn formatted_from(cs: Seq<char>, i: int, out: Seq<char>)
    requires
        0 <= i <= cs.len(),
    ensures
        printf_from_spec(cs, i, out) == out + formatted(cs.skip(i)),
    decreases cs.len() - i,
{
    if i < cs.len() {
        let text = printf_char_spec(cs[i]);
        formatted_from(cs, i + 1, out + text);
        assert(cs.skip(i).skip(1) =~= cs.skip(i + 1));
        assert(cs.skip(i)[0] == cs[i]);
        assert(out + text + formatted(cs.skip(i + 1)) =~= out + (text + formatted(cs.skip(i + 1))));
    } else {
        assert(out + formatted(cs.skip(i)) =~= out);
    }
}

proof fn formatted_is_printed(s: Seq<char>)
    ensures
        printed(formatted(s)) == s,
    decreases s.len(),
{
    if s.len() > 0 {
        formatted_is_printed(s.skip(1));
        printed_character(s[0], formatted(s.skip(1)));
        assert(seq![s[0]] + s.skip(1) =~= s);
    } else {
        assert(s =~= Seq::empty());
    }
}

/// A text in a printf format prints itself.
pub proof fn law_format_prints_the_text(s: Seq<char>)
    ensures
        printed(printf_escape_spec(s)) == s,
{
    reveal(printf_escape_spec);
    formatted_from(s, 0, Seq::empty());
    assert(s.skip(0) =~= s);
    assert(Seq::<char>::empty() + formatted(s) =~= formatted(s));
    formatted_is_printed(s);
}

} // verus!
