//! Splitting interpolated strings into segments.

use vstd::prelude::*;

use crate::codegen::quote::{Seg, SegV, interpolates_at, interpolates_at_spec, segs_v};
use crate::lexer::{at, at_spec, cut, cut_spec, text_of_char, word_end, word_end_spec};
use crate::text::{chars_of, empty, texts};

verus! {

broadcast use {crate::codegen::quote::group_quote, crate::text::group_texts};

/// Where the `}` that closes `depth` open braces stands from `i` on; the length where
/// there is none.
pub fn brace_end(cs: &Vec<char>, i: usize, depth: usize) -> (r: usize)
    requires
        i <= cs.len(),
        1 <= depth <= i,
    ensures
        (r as int) == brace_end_spec(cs@, (i as int), (depth as int)),
        i <= r <= cs.len(),
{
    let ghost i_0 = i;
    let ghost depth_0 = depth;
    let mut i: usize = i;
    let mut depth: usize = depth;
    #[verifier::loop_isolation(false)]
    loop
        invariant
            brace_end_spec(cs@, (i_0 as int), (depth_0 as int)) == brace_end_spec(cs@, (i as int), (depth as int)),
            i_0 <= i <= cs.len(),
            1 <= depth <= i,
        decreases cs.len() - i,
    {
        if i >= cs.len() {
            return i;
        }
        let c = at(cs, i, 0);
        if c == '{' {
            depth = depth + 1;
        } else if c == '}' {
            if depth <= 1 {
                return i;
            }
            depth = depth - 1;
        }
        i = i + 1;
    }
}

/// The segments with a literal run added, where it holds anything.
pub open spec fn add_lit_spec(segs: Seq<SegV>, lit: Seq<char>) -> Seq<SegV> {
    if lit.len() == 0 { segs } else { segs.push(SegV::Lit(lit)) }
}

/// The segments with a literal behind them, where it is not empty.
pub fn add_lit(segs: Vec<Seg>, lit: &str) -> (r: Vec<Seg>)
    ensures
        segs_v(r@) == add_lit_spec(segs_v(segs@), lit@),
{
    let mut out = segs;
    if !empty(lit) {
        out.push(Seg::Lit(lit.to_owned()));
    }
    out
}

/// The segments with the source of an expression added.
pub fn add_code(segs: Vec<Seg>, code: &str) -> (r: Vec<Seg>)
    ensures
        segs_v(r@) == segs_v(segs@).push(SegV::Code(code@)),
{
    let mut out = segs;
    out.push(Seg::Code(code.to_owned()));
    out
}

/// The segments of the raw text from `i` on; `lit` is the literal run in front of it.
pub fn split_from_raw(cs: &Vec<char>, i: usize, lit: String, segs: Vec<Seg>) -> (r: Vec<Seg>)
    ensures
        segs_v(r@) == split_from_raw_spec(cs@, (i as int), lit@, segs_v(segs@)),
{
    let ghost i_0 = i;
    let ghost lit_0 = lit;
    let ghost segs_0 = segs;
    let mut i: usize = i;
    let mut lit: String = lit;
    let mut segs: Vec<Seg> = segs;
    #[verifier::loop_isolation(false)]
    loop
        invariant
            split_from_raw_spec(cs@, (i_0 as int), lit_0@, segs_v(segs_0@)) == split_from_raw_spec(cs@, (i as int), lit@, segs_v(segs@)),
        decreases cs.len() - i,
    {
        if i >= cs.len() {
            return add_lit(segs, &lit);
        }
        if at(cs, i, 0) == '$' && at(cs, i, 1) == '{' {
            let j: usize = brace_end(cs, i + 2, 1);
            segs = add_code(add_lit(segs, &lit), &cut(cs, i + 2, j));
            lit = String::new();
            i = if j < cs.len() { j + 1 } else { j };
        } else if interpolates_at(cs, i) {
            let j: usize = word_end(cs, i + 1);
            segs = add_code(add_lit(segs, &lit), &cut(cs, i + 1, j));
            lit = String::new();
            i = j;
        } else {
            lit.push(at(cs, i, 0));
            i = i + 1;
        }
    }
}

/// The sources of the expressions among the segments from `i` on.
pub fn sources_of(segs: &Vec<Seg>, i: usize, out: Vec<String>) -> (r: Vec<String>)
    ensures
        texts(r@) == sources_of_spec(segs_v(segs@), (i as int), texts(out@)),
{
    let ghost i_0 = i;
    let ghost out_0 = out;
    let mut i: usize = i;
    let mut out: Vec<String> = out;
    #[verifier::loop_isolation(false)]
    loop
        invariant
            sources_of_spec(segs_v(segs@), (i_0 as int), texts(out_0@)) == sources_of_spec(segs_v(segs@), (i as int), texts(out@)),
        decreases segs.len() - i,
    {
        if i >= segs.len() {
            return out;
        }
        match &segs[i] {
            Seg::Code(src) => {
                out.push(src.clone());
            },
            Seg::Lit(_) => {},
        }
        i = i + 1;
    }
}

/// The segments of an interpolated string, in order, and the sources of its expressions.
pub fn split_interpolation(raw: &str) -> (r: (Vec<Seg>, Vec<String>))
    ensures
        (segs_v(r.0@), texts(r.1@)) == split_interpolation_spec(raw@),
{
    let segs = split_from_raw(&chars_of(raw), 0, String::new(), Vec::new());
    let sources = sources_of(&segs, 0, Vec::new());
    (segs, sources)
}

/// A character of a literal run inside a printf format string.
pub fn printf_char(c: char) -> (r: String)
    ensures
        r@ == printf_char_spec(c),
{
    if c == '\\' {
        "\\\\".to_owned()
    } else if c == '"' {
        "\\\"".to_owned()
    } else if c == '%' {
        "%%".to_owned()
    } else {
        text_of_char(c)
    }
}

/// The characters from `i` on as a printf format has them.
pub fn printf_from(cs: &Vec<char>, i: usize, out: String) -> (r: String)
    ensures
        r@ == printf_from_spec(cs@, (i as int), out@),
{
    let ghost i_0 = i;
    let ghost out_0 = out;
    let mut i: usize = i;
    let mut out: String = out;
    #[verifier::loop_isolation(false)]
    loop
        invariant
            printf_from_spec(cs@, (i_0 as int), out_0@) == printf_from_spec(cs@, (i as int), out@),
        decreases cs.len() - i,
    {
        if i >= cs.len() {
            return out;
        }
        out.append(&printf_char(at(cs, i, 0)));
        i = i + 1;
    }
}

/// A literal run for use inside a printf format string.
pub fn printf_escape(s: &str) -> (r: String)
    ensures
        r@ == printf_escape_spec(s@),
{
    proof {
        reveal(printf_escape_spec);
    }
    printf_from(&chars_of(s), 0, String::new())
}

/// What [`brace_end`] computes.
pub open spec fn brace_end_spec(cs: Seq<char>, i: int, depth: int) -> int
    decreases cs.len() - i,
{
    if !(0 <= i < cs.len()) { i } else {
        let c = at_spec(cs, i, 0int);
        if c == '{' {
            let depth = depth + 1;
            let i = i + 1;
            brace_end_spec(cs, i, depth)
        } else if c == '}' {
            if depth <= 1 { i } else {
                let depth = depth - 1;
                let i = i + 1;
                brace_end_spec(cs, i, depth)
            }
        } else {
            let i = i + 1;
            brace_end_spec(cs, i, depth)
        }
    }
}

/// What [`split_from_raw`] computes.
pub open spec fn split_from_raw_spec(cs: Seq<char>, i: int, lit: Seq<char>, segs: Seq<SegV>) -> Seq<SegV>
    decreases cs.len() - i,
{
    if !(0 <= i < cs.len()) { add_lit_spec(segs, lit) } else {
        if (at_spec(cs, i, 0int) == '$') && (at_spec(cs, i, 1int) == '{') {
            let j: int = brace_end_spec(cs, i + 2, 1int);
            if !(((i + 2) <= j) && (j <= (cs.len()))) { arbitrary() } else {
                let segs = (add_lit_spec(segs, lit)).push(SegV::Code(cut_spec(cs, i + 2, j)));
                let lit = Seq::empty();
                let i = if j < (cs.len()) { j + 1 } else { j };
                split_from_raw_spec(cs, i, lit, segs)
            }
        } else if interpolates_at_spec(cs, i) {
            let j: int = word_end_spec(cs, i + 1);
            if !(((i + 1) <= j) && (j <= (cs.len()))) { arbitrary() } else {
                let segs = (add_lit_spec(segs, lit)).push(SegV::Code(cut_spec(cs, i + 1, j)));
                let lit = Seq::empty();
                let i = j;
                split_from_raw_spec(cs, i, lit, segs)
            }
        } else {
            let lit = lit.push(at_spec(cs, i, 0int));
            let i = i + 1;
            split_from_raw_spec(cs, i, lit, segs)
        }
    }
}

/// What [`sources_of`] computes.
pub open spec fn sources_of_spec(segs: Seq<SegV>, i: int, out: Seq<Seq<char>>) -> Seq<Seq<char>>
    decreases segs.len() - i,
{
    if !(0 <= i < segs.len()) { out } else {
        let out = match segs[i] {
            SegV::Code(src) => {
                let out = out.push(src);
                out
            },
            SegV::Lit(_) => { out },
        };
        let i = i + 1;
        sources_of_spec(segs, i, out)
    }
}

/// What [`split_interpolation`] computes.
pub open spec fn split_interpolation_spec(raw: Seq<char>) -> (Seq<SegV>, Seq<Seq<char>>)
{
    let segs = split_from_raw_spec(raw, 0int, Seq::empty(), Seq::empty());
    let sources = sources_of_spec(segs, 0int, Seq::empty());
    (segs, sources)
}

/// What [`printf_char`] computes.
pub open spec fn printf_char_spec(c: char) -> Seq<char>
{
    if c == '\\' { "\\\\"@ } else if c == '"' { "\\\""@ } else if c == '%' { "%%"@ } else { seq![c] }
}

/// What [`printf_from`] computes.
pub open spec fn printf_from_spec(cs: Seq<char>, i: int, out: Seq<char>) -> Seq<char>
    decreases cs.len() - i,
{
    if !(0 <= i < cs.len()) { out } else {
        let out = out + (printf_char_spec(at_spec(cs, i, 0int)));
        let i = i + 1;
        printf_from_spec(cs, i, out)
    }
}

/// What [`printf_escape`] computes.
#[verifier::opaque]
pub open spec fn printf_escape_spec(s: Seq<char>) -> Seq<char>
{
    printf_from_spec(s, 0int, Seq::empty())
}

} // verus!
