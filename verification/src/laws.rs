//! What holds of the library as a whole.

use vstd::prelude::*;

use crate::codegen::gen::GenV;
use crate::codegen::header::{HeaderOptsV, generate_header_spec, generate_header_with_spec, plain_opts_spec};
use crate::codegen::helpers::empty_class_spec;
use crate::codegen::modfns::{Sort, any_of_spec};
use crate::codegen::quote::{escape_char_spec, escape_from_spec, escape_str_spec, hex_value_spec, octal_digit_spec, octal_escape_spec, same_escape_spec};
use crate::codegen::source::{add_reports_spec, advisories_spec, class_defs_spec, classes_text_spec, export_defs_spec, generate_source_diagnostics_spec, generate_source_spec, has_ns_body_spec, module_defs_spec, ns_open_spec, source_text_spec};
use crate::codegen::state::{Env, all_owned_deletes_spec, any_owned_spec, bind_local_name_spec, cpp_name_spec, define_in_scope_spec, define_local_spec, deletes_of_all_spec, deletes_of_spec, drop_last_of, free_name_spec, fresh_spec, has_owned_locals_spec, is_local_spec, is_taken_spec, local_in_spec, local_name_spec, local_of_spec, lookup_local_spec, name_local_spec, pop_scope_spec, push_last, push_scope_spec, record_rename_spec, rename_in_spec, rename_of_spec, renamed_in_to_spec, renamed_to_spec, reserve_local_name_spec, start_gen_spec, transfer_owned_spec, without_from_spec, without_in_each_spec, without_spec};
use crate::codegen::stmt::{line_feeds_from_spec, line_feeds_spec};
use crate::codegen::ty::TyV;
use crate::lexer::{at_spec, is_hex_spec};
use crate::model::{ClassV, DeclV};
use crate::parser::parse_spec;
use crate::parser::pp::{blank_end_spec, cond_and_rest_spec, cond_and_spec, cond_or_rest_spec, cond_or_spec, cond_unary_spec, evaluate_spec, flag_end_spec, is_flag_char_spec};
use crate::program::ProgramV;
use crate::resolve::module_at_spec;
use crate::text::{dec, digit};

pub mod builtins;
pub mod collections;
pub mod command;
pub mod definitions;
pub mod escaping;
pub mod grammar;
pub mod headers;
pub mod includes;
pub mod lookups;
pub mod mapping;
pub mod members;
pub mod naming;
pub mod order;
pub mod output;
pub mod ownership;
pub mod programs;
pub mod requests;
pub mod roots;
pub mod runs;
pub mod spelling;
pub mod statements;
pub mod stores;
pub mod texts;
pub mod tokens;
pub mod unique;
pub mod values;

verus! {

broadcast use {crate::codegen::gen::group_gen, crate::codegen::quote::group_quote, crate::codegen::ty::group_ty, crate::model::group_model, crate::program::group_program, crate::text::group_texts};

// ---- sources ---------------------------------------------------------------

/// A byte-order mark in front of a source changes nothing.
pub proof fn law_byte_order_mark(src: Seq<char>, defs: Set<Seq<char>>)
    requires
        src.len() == 0 || src[0] != '\u{FEFF}',
    ensures
        parse_spec(seq!['\u{FEFF}'] + src, defs) == parse_spec(src, defs),
{
    let marked = seq!['\u{FEFF}'] + src;
    assert(marked[0] == '\u{FEFF}');
    assert(marked.subrange(1, marked.len() as int) =~= src);
}

// ---- conditions ---------------------------------------------------------------

/// What a `#if` asks.
pub enum Cond {
    Flag(Seq<char>),
    Not(Box<Cond>),
    And(Box<Cond>, Box<Cond>),
    Or(Box<Cond>, Box<Cond>),
}

/// Whether every flag has a name that can be written.
pub open spec fn is_written(c: Cond) -> bool
    decreases c,
{
    match c {
        Cond::Flag(n) => n.len() > 0 && forall|k: int| 0 <= k < n.len() ==> is_flag_char_spec(#[trigger] n[k]),
        Cond::Not(a) => is_written(*a),
        Cond::And(a, b) => is_written(*a) && is_written(*b),
        Cond::Or(a, b) => is_written(*a) && is_written(*b),
    }
}

/// How it is written.
pub open spec fn written(c: Cond) -> Seq<char>
    decreases c,
{
    match c {
        Cond::Flag(n) => n,
        Cond::Not(a) => seq!['!'] + written(*a),
        Cond::And(a, b) => seq!['('] + written(*a) + seq!['&', '&'] + written(*b) + seq![')'],
        Cond::Or(a, b) => seq!['('] + written(*a) + seq!['|', '|'] + written(*b) + seq![')'],
    }
}

/// Whether it holds with these flags defined.
pub open spec fn holds(c: Cond, defs: Set<Seq<char>>) -> bool
    decreases c,
{
    match c {
        Cond::Flag(n) => defs.contains(n),
        Cond::Not(a) => !holds(*a, defs),
        Cond::And(a, b) => holds(*a, defs) && holds(*b, defs),
        Cond::Or(a, b) => holds(*a, defs) || holds(*b, defs),
    }
}

proof fn flag_runs(cs: Seq<char>, i: int, e: int)
    requires
        0 <= i <= e <= cs.len(),
        forall|k: int| i <= k < e ==> is_flag_char_spec(#[trigger] cs[k]),
        e == cs.len() || !is_flag_char_spec(cs[e]),
    ensures
        flag_end_spec(cs, i) == e,
    decreases e - i,
{
    if i < e {
        assert(is_flag_char_spec(cs[i]));
        flag_runs(cs, i + 1, e);
    }
}

/// The text at a place of another.
spec fn stands_at(cs: Seq<char>, i: int, t: Seq<char>) -> bool {
    &&& 0 <= i
    &&& i + t.len() <= cs.len()
    &&& forall|k: int| 0 <= k < t.len() ==> cs[i + k] == #[trigger] t[k]
}

proof fn part_stands(cs: Seq<char>, i: int, a: Seq<char>, b: Seq<char>)
    requires
        stands_at(cs, i, a + b),
    ensures
        stands_at(cs, i, a),
        stands_at(cs, i + a.len(), b),
{
    assert forall|k: int| 0 <= k < a.len() implies cs[i + k] == #[trigger] a[k] by {
        assert((a + b)[k] == a[k]);
    }
    assert forall|k: int| 0 <= k < b.len() implies cs[i + a.len() + k] == #[trigger] b[k] by {
        assert((a + b)[a.len() + k] == b[k]);
    }
}

proof fn written_starts(c: Cond)
    requires
        is_written(c),
    ensures
        written(c).len() > 0,
        is_flag_char_spec(written(c)[0]) || written(c)[0] == '!' || written(c)[0] == '(',
    decreases c,
{
    match c {
        Cond::Flag(n) => {},
        Cond::Not(a) => {},
        Cond::And(a, b) => {},
        Cond::Or(a, b) => {},
    }
}

proof fn both_are_read(cs: Seq<char>, defs: Set<Seq<char>>, i: int, j: int, m: int, a: bool, b: bool)
    requires
        0 <= i && i + 1 < j && j + 2 < m < cs.len(),
        cs[i] == '(' && cs[j] == '&' && cs[j + 1] == '&' && cs[m] == ')',
        cond_unary_spec(cs, defs, i + 1) == Some((a, j)),
        cond_unary_spec(cs, defs, j + 2) == Some((b, m)),
    ensures
        cond_unary_spec(cs, defs, i) == Some((a && b, m + 1)),
{
    assert(blank_end_spec(cs, i) == i);
    assert(blank_end_spec(cs, j) == j);
    assert(blank_end_spec(cs, m) == m);
    assert(cond_and_rest_spec(cs, defs, a && b, m) == Some((a && b, m)));
    assert(cond_and_rest_spec(cs, defs, a, j) == Some((a && b, m)));
    assert(cond_and_spec(cs, defs, i + 1) == Some((a && b, m)));
    assert(cond_or_rest_spec(cs, defs, a && b, m) == Some((a && b, m)));
    assert(cond_or_spec(cs, defs, i + 1) == Some((a && b, m)));
}

proof fn either_is_read(cs: Seq<char>, defs: Set<Seq<char>>, i: int, j: int, m: int, a: bool, b: bool)
    requires
        0 <= i && i + 1 < j && j + 2 < m < cs.len(),
        cs[i] == '(' && cs[j] == '|' && cs[j + 1] == '|' && cs[m] == ')',
        cond_unary_spec(cs, defs, i + 1) == Some((a, j)),
        cond_unary_spec(cs, defs, j + 2) == Some((b, m)),
    ensures
        cond_unary_spec(cs, defs, i) == Some((a || b, m + 1)),
{
    assert(blank_end_spec(cs, i) == i);
    assert(blank_end_spec(cs, j) == j);
    assert(blank_end_spec(cs, m) == m);
    assert(cond_and_rest_spec(cs, defs, a, j) == Some((a, j)));
    assert(cond_and_spec(cs, defs, i + 1) == Some((a, j)));
    assert(cond_and_rest_spec(cs, defs, b, m) == Some((b, m)));
    assert(cond_and_spec(cs, defs, j + 2) == Some((b, m)));
    assert(cond_or_rest_spec(cs, defs, a || b, m) == Some((a || b, m)));
    assert(cond_or_rest_spec(cs, defs, a, j) == Some((a || b, m)));
    assert(cond_or_spec(cs, defs, i + 1) == Some((a || b, m)));
}

proof fn condition_is_read(c: Cond, defs: Set<Seq<char>>, cs: Seq<char>, i: int)
    requires
        is_written(c),
        stands_at(cs, i, written(c)),
        i + written(c).len() == cs.len() || !is_flag_char_spec(cs[i + written(c).len()]),
    ensures
        cond_unary_spec(cs, defs, i) == Some((holds(c, defs), i + written(c).len())),
    decreases c,
{
    written_starts(c);
    let t = written(c);
    assert(cs[i + 0] == t[0]);
    assert(blank_end_spec(cs, i) == i);
    match c {
        Cond::Flag(n) => {
            let e = i + n.len();
            assert forall|k: int| i <= k < e implies is_flag_char_spec(#[trigger] cs[k]) by {
                assert(cs[i + (k - i)] == n[k - i]);
            }
            flag_runs(cs, i, e);
            assert(cs.subrange(i, e) =~= n);
            assert(is_flag_char_spec(cs[i]));
        },
        Cond::Not(a) => {
            part_stands(cs, i, seq!['!'], written(*a));
            assert(cs[i] == '!');
            condition_is_read(*a, defs, cs, i + 1);
        },
        Cond::And(a, b) => {
            let (ta, tb) = (written(*a), written(*b));
            part_stands(cs, i, seq!['('] + ta + seq!['&', '&'] + tb, seq![')']);
            part_stands(cs, i, seq!['('] + ta + seq!['&', '&'], tb);
            part_stands(cs, i, seq!['('] + ta, seq!['&', '&']);
            part_stands(cs, i, seq!['('], ta);
            let j = i + 1 + ta.len();
            let m = j + 2 + tb.len();
            assert(cs[i + 0] == seq!['('][0]);
            assert(cs[j + 0] == seq!['&', '&'][0] && cs[j + 1] == seq!['&', '&'][1]);
            assert(cs[m + 0] == seq![')'][0]);
            condition_is_read(*a, defs, cs, i + 1);
            condition_is_read(*b, defs, cs, j + 2);
            written_starts(*a);
            written_starts(*b);
            both_are_read(cs, defs, i, j, m, holds(*a, defs), holds(*b, defs));
        },
        Cond::Or(a, b) => {
            let (ta, tb) = (written(*a), written(*b));
            part_stands(cs, i, seq!['('] + ta + seq!['|', '|'] + tb, seq![')']);
            part_stands(cs, i, seq!['('] + ta + seq!['|', '|'], tb);
            part_stands(cs, i, seq!['('] + ta, seq!['|', '|']);
            part_stands(cs, i, seq!['('], ta);
            let j = i + 1 + ta.len();
            let m = j + 2 + tb.len();
            assert(cs[i + 0] == seq!['('][0]);
            assert(cs[j + 0] == seq!['|', '|'][0] && cs[j + 1] == seq!['|', '|'][1]);
            assert(cs[m + 0] == seq![')'][0]);
            condition_is_read(*a, defs, cs, i + 1);
            condition_is_read(*b, defs, cs, j + 2);
            written_starts(*a);
            written_starts(*b);
            either_is_read(cs, defs, i, j, m, holds(*a, defs), holds(*b, defs));
        },
    }
}

/// A condition of flags, `!`, `&&`, `||` and parentheses is decided by what it says.
pub proof fn law_conditions_are_decided(c: Cond, defs: Set<Seq<char>>)
    requires
        is_written(c),
    ensures
        evaluate_spec(written(c), defs) == Some(holds(c, defs)),
{
    let cs = written(c);
    let n = cs.len() as int;
    condition_is_read(c, defs, cs, 0);
    assert(blank_end_spec(cs, n) == n);
    assert(cond_and_rest_spec(cs, defs, holds(c, defs), n) == Some((holds(c, defs), n)));
    written_starts(c);
    assert(cond_and_spec(cs, defs, 0) == Some((holds(c, defs), n)));
    assert(cond_or_rest_spec(cs, defs, holds(c, defs), n) == Some((holds(c, defs), n)));
}

/// How far a condition was read, whatever it says.
spec fn read_to(r: Option<(bool, int)>) -> Option<int> {
    match r {
        None => None,
        Some((_, j)) => Some(j),
    }
}

proof fn alternatives_read_alike(cs: Seq<char>, a: Set<Seq<char>>, b: Set<Seq<char>>, i: int)
    ensures
        read_to(cond_or_spec(cs, a, i)) == read_to(cond_or_spec(cs, b, i)),
    decreases cs.len() - i, 3int,
{
    conjunctions_read_alike(cs, a, b, i);
    match (cond_and_spec(cs, a, i), cond_and_spec(cs, b, i)) {
        (Some((v, j)), Some((w, _))) => {
            if i < j && j <= cs.len() {
                more_alternatives_read_alike(cs, a, b, v, w, j);
            }
        },
        _ => {},
    }
}

proof fn more_alternatives_read_alike(cs: Seq<char>, a: Set<Seq<char>>, b: Set<Seq<char>>, v: bool, w: bool, j: int)
    ensures
        read_to(cond_or_rest_spec(cs, a, v, j)) == read_to(cond_or_rest_spec(cs, b, w, j)),
    decreases cs.len() - j, 3int,
{
    let k = blank_end_spec(cs, j);
    if at_spec(cs, k, 0) == '|' && at_spec(cs, k, 1) == '|' && j <= k && k < cs.len() {
        conjunctions_read_alike(cs, a, b, k + 2);
        match (cond_and_spec(cs, a, k + 2), cond_and_spec(cs, b, k + 2)) {
            (Some((x, m)), Some((y, _))) => {
                if j < m && m <= cs.len() {
                    more_alternatives_read_alike(cs, a, b, v || x, w || y, m);
                }
            },
            _ => {},
        }
    }
}

proof fn conjunctions_read_alike(cs: Seq<char>, a: Set<Seq<char>>, b: Set<Seq<char>>, i: int)
    ensures
        read_to(cond_and_spec(cs, a, i)) == read_to(cond_and_spec(cs, b, i)),
    decreases cs.len() - i, 2int,
{
    terms_read_alike(cs, a, b, i);
    match (cond_unary_spec(cs, a, i), cond_unary_spec(cs, b, i)) {
        (Some((v, j)), Some((w, _))) => {
            if i < j && j <= cs.len() {
                more_terms_read_alike(cs, a, b, v, w, j);
            }
        },
        _ => {},
    }
}

proof fn more_terms_read_alike(cs: Seq<char>, a: Set<Seq<char>>, b: Set<Seq<char>>, v: bool, w: bool, j: int)
    ensures
        read_to(cond_and_rest_spec(cs, a, v, j)) == read_to(cond_and_rest_spec(cs, b, w, j)),
    decreases cs.len() - j, 2int,
{
    let k = blank_end_spec(cs, j);
    if at_spec(cs, k, 0) == '&' && at_spec(cs, k, 1) == '&' && j <= k && k < cs.len() {
        terms_read_alike(cs, a, b, k + 2);
        match (cond_unary_spec(cs, a, k + 2), cond_unary_spec(cs, b, k + 2)) {
            (Some((x, m)), Some((y, _))) => {
                if j < m && m <= cs.len() {
                    more_terms_read_alike(cs, a, b, v && x, w && y, m);
                }
            },
            _ => {},
        }
    }
}

proof fn terms_read_alike(cs: Seq<char>, a: Set<Seq<char>>, b: Set<Seq<char>>, i: int)
    ensures
        read_to(cond_unary_spec(cs, a, i)) == read_to(cond_unary_spec(cs, b, i)),
    decreases cs.len() - i, 1int,
{
    let k = blank_end_spec(cs, i);
    if i <= k && k <= cs.len() {
        if at_spec(cs, k, 0) == '!' {
            terms_read_alike(cs, a, b, k + 1);
        } else if at_spec(cs, k, 0) == '(' {
            alternatives_read_alike(cs, a, b, k + 1);
        }
    }
}

/// Whether a text is a condition at all does not depend on the flags.
pub proof fn law_conditions_are_told_without_flags(cond: Seq<char>, a: Set<Seq<char>>, b: Set<Seq<char>>)
    ensures
        evaluate_spec(cond, a) is None <==> evaluate_spec(cond, b) is None,
{
    alternatives_read_alike(cond, a, b, 0);
}

// ---- texts -----------------------------------------------------------------

/// The characters of a text whose lines end in line feeds only.
pub open spec fn plain_feeds(s: Seq<char>) -> bool {
    forall|i: int| 0 <= i < s.len() ==> s[i] != '\r'
}

proof fn line_feeds_have_no_returns(cs: Seq<char>, i: int, out: Seq<char>)
    requires
        0 <= i,
        plain_feeds(out),
    ensures
        plain_feeds(line_feeds_from_spec(cs, i, out)),
    decreases cs.len() - i,
{
    if i < cs.len() {
        if cs[i] != '\r' {
            line_feeds_have_no_returns(cs, i + 1, out.push(cs[i]));
        } else if i + 1 >= cs.len() || cs[i + 1] != '\n' {
            line_feeds_have_no_returns(cs, i + 1, out.push('\n'));
        } else {
            line_feeds_have_no_returns(cs, i + 1, out);
        }
    }
}

/// What is written has line feeds only.
pub proof fn law_line_feeds(s: Seq<char>)
    ensures
        plain_feeds(line_feeds_spec(s)),
{
    line_feeds_have_no_returns(s, 0, Seq::empty());
}

proof fn line_feeds_keep(cs: Seq<char>, i: int, out: Seq<char>)
    requires
        0 <= i <= cs.len(),
        plain_feeds(cs),
    ensures
        line_feeds_from_spec(cs, i, out) == out + cs.subrange(i, cs.len() as int),
    decreases cs.len() - i,
{
    if i < cs.len() {
        line_feeds_keep(cs, i + 1, out.push(cs[i]));
        assert(out.push(cs[i]) + cs.subrange(i + 1, cs.len() as int) =~= out + cs.subrange(i, cs.len() as int));
    } else {
        assert(out + cs.subrange(i, cs.len() as int) =~= out);
    }
}

/// A text that has line feeds only stays as it is.
pub proof fn law_line_feeds_are_kept(s: Seq<char>)
    requires
        plain_feeds(s),
    ensures
        line_feeds_spec(s) == s,
{
    line_feeds_keep(s, 0, Seq::empty());
    assert(Seq::<char>::empty() + s.subrange(0, s.len() as int) =~= s);
}

/// What reading a C++ string literal up to the end of a text amounts to.
pub enum Reading {
    /// inside the literal
    Inside,
    /// after a backslash
    Escaping,
    /// the literal ended or a line did
    Broken,
}

/// What a reader of a string literal is in after a text.
pub open spec fn reading(s: Seq<char>) -> Reading
    decreases s.len(),
{
    if s.len() == 0 {
        Reading::Inside
    } else {
        let c = s.last();
        let ends_line = c == '\n' || c == '\r';
        match reading(s.drop_last()) {
            Reading::Broken => Reading::Broken,
            Reading::Escaping => if ends_line { Reading::Broken } else { Reading::Inside },
            Reading::Inside => {
                if c == '"' || ends_line {
                    Reading::Broken
                } else if c == '\\' {
                    Reading::Escaping
                } else {
                    Reading::Inside
                }
            },
        }
    }
}

proof fn reading_on(s: Seq<char>, c: char)
    ensures
        reading(s.push(c)) == (match reading(s) {
            Reading::Broken => Reading::Broken,
            Reading::Escaping => if c == '\n' || c == '\r' { Reading::Broken } else { Reading::Inside },
            Reading::Inside => if c == '"' || c == '\n' || c == '\r' { Reading::Broken } else if c == '\\' { Reading::Escaping } else { Reading::Inside },
        }),
{
    assert(s.push(c).drop_last() =~= s);
}

proof fn escape_char_reads(out: Seq<char>, c: char)
    requires
        reading(out) == Reading::Inside,
    ensures
        reading(out + escape_char_spec(c)) == Reading::Inside,
{
    reveal_strlit("\\\"");
    reveal_strlit("\\\\");
    reveal_strlit("\\n");
    reveal_strlit("\\t");
    reveal_strlit("\\r");
    let e = escape_char_spec(c);
    if e.len() == 1 {
        assert(out + e =~= out.push(c));
        reading_on(out, c);
    } else {
        assert(out + e =~= out.push(e[0]).push(e[1]));
        reading_on(out, e[0]);
        reading_on(out.push(e[0]), e[1]);
    }
}

proof fn octal_reads(out: Seq<char>, a: char, b: char, c: char)
    requires
        reading(out) == Reading::Inside,
        a != '\n' && a != '\r',
        b != '"' && b != '\\' && b != '\n' && b != '\r',
        c != '"' && c != '\\' && c != '\n' && c != '\r',
    ensures
        reading(out.push('\\').push(a).push(b).push(c)) == Reading::Inside,
{
    reading_on(out, '\\');
    reading_on(out.push('\\'), a);
    reading_on(out.push('\\').push(a), b);
    reading_on(out.push('\\').push(a).push(b), c);
}

proof fn escape_reads(cs: Seq<char>, i: int, out: Seq<char>)
    requires
        0 <= i,
        reading(out) == Reading::Inside,
    ensures
        reading(escape_from_spec(cs, i, out)) == Reading::Inside,
    decreases cs.len() - i,
{
    reveal_strlit("\\");
    reveal_strlit("\\\\");
    reveal_strlit("\\000");
    if i < cs.len() {
        let c = at_spec(cs, i, 0);
        let n = at_spec(cs, i, 1);
        if c == '\\' && i + 1 < cs.len() {
            reading_on(out, '\\');
            if same_escape_spec(n) {
                reading_on(out.push('\\'), n);
                escape_reads(cs, i + 2, out.push(c).push(n));
            } else if n == '\'' {
                reading_on(out, n);
                escape_reads(cs, i + 2, out.push(n));
            } else if n == '0' {
                octal_reads(out, '0', '0', '0');
                assert(out + "\\000"@ =~= out.push('\\').push('0').push('0').push('0'));
                escape_reads(cs, i + 2, out + "\\000"@);
            } else if n == 'x' && is_hex_spec(at_spec(cs, i, 2)) && is_hex_spec(at_spec(cs, i, 3)) {
                let k = hex_value_spec(at_spec(cs, i, 2)) * 16 + hex_value_spec(at_spec(cs, i, 3));
                let o = octal_escape_spec(k);
                octal_reads(out, octal_digit_spec(k / 64), octal_digit_spec((k / 8) % 8), octal_digit_spec(k % 8));
                assert(out + o =~= out.push('\\').push(octal_digit_spec(k / 64)).push(octal_digit_spec((k / 8) % 8)).push(octal_digit_spec(k % 8)));
                escape_reads(cs, i + 4, out + o);
            } else {
                reading_on(out.push('\\'), '\\');
                assert(out + "\\\\"@ =~= out.push('\\').push('\\'));
                escape_reads(cs, i + 1, out + "\\\\"@);
            }
        } else {
            escape_char_reads(out, c);
            escape_reads(cs, i + 1, out + escape_char_spec(c));
        }
    }
}

/// An escaped text stays inside a C++ string literal: it neither ends it nor breaks its line.
pub proof fn law_escaped_text_stays_inside(s: Seq<char>)
    ensures
        reading(escape_str_spec(s)) == Reading::Inside,
{
    reveal(escape_str_spec);
    escape_reads(s, 0, Seq::empty());
}

proof fn digits_differ(a: nat, b: nat)
    requires
        a < 10,
        b < 10,
        digit(a) == digit(b),
    ensures
        a == b,
{
}

proof fn decimal_is_there(n: nat)
    ensures
        dec(n).len() >= 1,
    decreases n,
{
    if n >= 10 {
        decimal_is_there(n / 10);
    }
}

proof fn decimals_differ(a: nat, b: nat)
    requires
        dec(a) == dec(b),
    ensures
        a == b,
    decreases a,
{
    if a < 10 && b < 10 {
        assert(dec(a) == seq![digit(a)]);
        assert(dec(b) == seq![digit(b)]);
        assert(dec(a)[0] == digit(a));
        assert(dec(b)[0] == digit(b));
        digits_differ(a, b);
    } else if a >= 10 && b >= 10 {
        assert(dec(a).last() == digit(a % 10));
        assert(dec(b).last() == digit(b % 10));
        assert(dec(a).drop_last() =~= dec(a / 10));
        assert(dec(b).drop_last() =~= dec(b / 10));
        digits_differ(a % 10, b % 10);
        decimals_differ(a / 10, b / 10);
    } else if a >= 10 {
        decimal_is_there(a / 10);
        assert(dec(b) == seq![digit(b)]);
    } else {
        decimal_is_there(b / 10);
        assert(dec(a) == seq![digit(a)]);
    }
}

// ---- names and scopes ---------------------------------------------------------

/// Two temporaries made one after the other have different names.
pub proof fn law_temporaries_differ(p: Env, st: GenV, hint: Seq<char>)
    requires
        0 <= st.tmp < usize::MAX - 1,
    ensures
        fresh_spec(p, st, hint).1 != fresh_spec(p, fresh_spec(p, st, hint).0, hint).1,
{
    reveal(fresh_spec);
    let a = (st.tmp + 1) as nat;
    let b = (st.tmp + 2) as nat;
    let head = "_"@ + hint;
    if head + dec(a) == head + dec(b) {
        assert((head + dec(a)).subrange(head.len() as int, (head + dec(a)).len() as int) =~= dec(a));
        assert((head + dec(b)).subrange(head.len() as int, (head + dec(b)).len() as int) =~= dec(b));
        decimals_differ(a, b);
    }
}

/// Closing a scope that was just opened restores what was there.
pub proof fn law_scope_is_restored(p: Env, st: GenV)
    ensures
        pop_scope_spec(p, push_scope_spec(p, st)) == st,
{
    reveal(pop_scope_spec);
    let opened = push_scope_spec(p, st);
    assert(drop_last_of(opened.scopes) =~= st.scopes);
    assert(drop_last_of(opened.renames) =~= st.renames);
    assert(drop_last_of(opened.owned) =~= st.owned);
}

proof fn local_in_prefix(a: Seq<(Seq<char>, TyV)>, x: (Seq<char>, TyV), name: Seq<char>, n: int)
    requires
        0 <= n <= a.len(),
    ensures
        local_in_spec(a.push(x), name, n) == local_in_spec(a, name, n),
    decreases n,
{
    if n >= 1 {
        assert(a.push(x)[n - 1] == a[n - 1]);
        local_in_prefix(a, x, name, n - 1);
    }
}

proof fn local_of_prefix(a: Seq<Seq<(Seq<char>, TyV)>>, b: Seq<Seq<(Seq<char>, TyV)>>, name: Seq<char>, n: int)
    requires
        0 <= n <= a.len(),
        n <= b.len(),
        forall|i: int| 0 <= i < n ==> a[i] == b[i],
    ensures
        local_of_spec(a, name, n) == local_of_spec(b, name, n),
    decreases n,
{
    if n >= 1 {
        local_of_prefix(a, b, name, n - 1);
    }
}

/// A local that was just declared is found, with its type.
pub proof fn law_declared_local_is_found(p: Env, st: GenV, name: Seq<char>, ty: TyV)
    requires
        st.scopes.len() > 0,
    ensures
        lookup_local_spec(p, define_local_spec(p, st, name, ty), name) == Some(ty),
{
    reveal(define_local_spec);
    reveal(define_in_scope_spec);
    reveal(lookup_local_spec);
    let scopes = push_last(st.scopes, (name, ty));
    assert(scopes.len() == st.scopes.len());
    assert(scopes.last() == st.scopes.last().push((name, ty)));
    reveal_with_fuel(local_of_spec, 2);
    reveal_with_fuel(local_in_spec, 2);
}

/// Declaring a local leaves every other local as it was.
pub proof fn law_other_locals_stay(p: Env, st: GenV, name: Seq<char>, ty: TyV, other: Seq<char>)
    requires
        other != name,
    ensures
        lookup_local_spec(p, define_local_spec(p, st, name, ty), other) == lookup_local_spec(p, st, other),
{
    reveal(define_local_spec);
    reveal(define_in_scope_spec);
    reveal(lookup_local_spec);
    let n = st.scopes.len() as int;
    if n > 0 {
        let scopes = push_last(st.scopes, (name, ty));
        let last = st.scopes.last();
        assert(scopes.len() == n);
        assert(scopes[n - 1] == last.push((name, ty)));
        local_in_prefix(last, (name, ty), other, last.len() as int);
        assert(local_in_spec(scopes[n - 1], other, scopes[n - 1].len() as int) == local_in_spec(last, other, last.len() as int)) by {
            reveal_with_fuel(local_in_spec, 2);
            assert(scopes[n - 1][last.len() as int].0 == name);
        }
        local_of_prefix(scopes, st.scopes, other, n - 1);
    }
}

proof fn free_name_is_free(p: Env, st: GenV, name: Seq<char>, i: int)
    requires
        0 <= i <= usize::MAX,
    ensures
        ({
            let r = free_name_spec(p, st, name, i);
            !is_taken_spec(p, st, r) || r == name + "_"@ + dec(usize::MAX as nat)
        }),
    decreases usize::MAX - i,
{
    reveal(free_name_spec);
    if i < usize::MAX && is_taken_spec(p, st, name + "_"@ + dec(i as nat)) {
        free_name_is_free(p, st, name, i + 1);
    }
}

/// Whether the rename at `j` of the scope at `k` is to this identifier.
pub open spec fn renamed_at(renames: Seq<Seq<(Seq<char>, Seq<char>)>>, cpp: Seq<char>, k: int, j: int) -> bool {
    0 <= k < renames.len() && 0 <= j < renames[k].len() && renames[k][j].1 == cpp
}

proof fn not_renamed_in(scope: Seq<(Seq<char>, Seq<char>)>, cpp: Seq<char>, n: int, j: int)
    requires
        0 <= j < n <= scope.len(),
        scope[j].1 == cpp,
    ensures
        renamed_in_to_spec(scope, cpp, n),
    decreases n,
{
    if scope[n - 1].1 != cpp {
        not_renamed_in(scope, cpp, n - 1, j);
    }
}

proof fn renames_are_seen(renames: Seq<Seq<(Seq<char>, Seq<char>)>>, cpp: Seq<char>, n: int, k: int, j: int)
    requires
        0 <= k < n <= renames.len(),
        renamed_at(renames, cpp, k, j),
    ensures
        renamed_to_spec(renames, cpp, n),
    decreases n,
{
    if k == n - 1 {
        not_renamed_in(renames[k], cpp, renames[k].len() as int, j);
    } else if !renamed_in_to_spec(renames[n - 1], cpp, renames[n - 1].len() as int) {
        renames_are_seen(renames, cpp, n - 1, k, j);
    }
}

proof fn rename_is_there_in(scope: Seq<(Seq<char>, Seq<char>)>, name: Seq<char>, n: int)
    requires
        0 <= n <= scope.len(),
    ensures
        rename_in_spec(scope, name, n) matches Some(cpp) ==> renamed_in_to_spec(scope, cpp, n),
    decreases n,
{
    if n >= 1 && scope[n - 1].0 != name {
        rename_is_there_in(scope, name, n - 1);
    }
}

proof fn rename_is_there(renames: Seq<Seq<(Seq<char>, Seq<char>)>>, name: Seq<char>, n: int)
    requires
        0 <= n <= renames.len(),
    ensures
        rename_of_spec(renames, name, n) matches Some(cpp) ==> renamed_to_spec(renames, cpp, n),
    decreases n,
{
    if n >= 1 {
        rename_is_there_in(renames[n - 1], name, renames[n - 1].len() as int);
        rename_is_there(renames, name, n - 1);
    }
}

proof fn rename_is_followed(renames: Seq<Seq<(Seq<char>, Seq<char>)>>, name: Seq<char>, cpp: Seq<char>)
    requires
        renames.len() > 0,
    ensures
        rename_of_spec(push_last(renames, (name, cpp)), name, renames.len() as int) == Some(cpp),
{
    let after = push_last(renames, (name, cpp));
    let top = after[renames.len() - 1];
    assert(top[top.len() - 1] == (name, cpp));
    assert(rename_in_spec(top, name, top.len() as int) == Some(cpp));
}

/// The identifier that a new local is given is none that is in use: no local is called so in the
/// generated code, and none in a scope that is still open was ever renamed to it. Later uses of
/// the local follow it. That holds while there are numbers left to tell names apart.
pub proof fn law_new_local_has_a_free_name(p: Env, st: GenV, name: Seq<char>)
    requires
        st.renames.len() > 0,
        !is_taken_spec(p, st, name + "_"@ + dec(usize::MAX as nat)),
    ensures
        ({
            let (after, cpp) = bind_local_name_spec(p, st, name);
            &&& forall|n: Seq<char>| is_local_spec(p, st, n) ==> #[trigger] cpp_name_spec(p, st, n) != cpp && n != cpp
            &&& forall|k: int, j: int| !#[trigger] renamed_at(st.renames, cpp, k, j)
            &&& cpp_name_spec(p, after, name) == cpp
        }),
{
    reveal(bind_local_name_spec);
    reveal(local_name_spec);
    reveal(name_local_spec);
    reveal(is_taken_spec);
    reveal(cpp_name_spec);
    reveal(record_rename_spec);
    free_name_is_free(p, st, name, 2);
    let (after, cpp) = bind_local_name_spec(p, st, name);
    let count = st.renames.len() as int;
    assert(!is_taken_spec(p, st, cpp));
    assert forall|n: Seq<char>| is_local_spec(p, st, n) implies #[trigger] cpp_name_spec(p, st, n) != cpp && n != cpp by {
        rename_is_there(st.renames, n, count);
    }
    assert forall|k: int, j: int| !#[trigger] renamed_at(st.renames, cpp, k, j) by {
        if renamed_at(st.renames, cpp, k, j) {
            renames_are_seen(st.renames, cpp, count, k, j);
        }
    }
    rename_is_followed(st.renames, name, cpp);
}

/// A name that is reserved for a local whose initialiser comes first is free too, is taken from
/// then on, and changes no use of a local.
pub proof fn law_reserved_name_is_free(p: Env, st: GenV, name: Seq<char>)
    requires
        st.renames.len() > 0,
        !is_taken_spec(p, st, name + "_"@ + dec(usize::MAX as nat)),
    ensures
        ({
            let (after, cpp) = reserve_local_name_spec(p, st, name);
            &&& cpp == bind_local_name_spec(p, st, name).1
            &&& is_taken_spec(p, after, cpp)
            &&& forall|n: Seq<char>| n.len() > 0 ==> #[trigger] cpp_name_spec(p, after, n) == cpp_name_spec(p, st, n)
        }),
{
    reveal(bind_local_name_spec);
    reveal(reserve_local_name_spec);
    reveal(is_taken_spec);
    reveal(cpp_name_spec);
    reveal(record_rename_spec);
    reveal_strlit("");
    let (after, cpp) = reserve_local_name_spec(p, st, name);
    let last = st.renames.len() - 1;
    let more = st.renames[last].push((""@, cpp));
    assert(after.renames[last] == more);
    assert(renamed_at(after.renames, cpp, last, more.len() - 1));
    renames_are_seen(after.renames, cpp, st.renames.len() as int, last, more.len() - 1);
    assert forall|n: Seq<char>| n.len() > 0 implies #[trigger] cpp_name_spec(p, after, n) == cpp_name_spec(p, st, n) by {
        rename_in_prefix(more, st.renames[last], n, st.renames[last].len() as int);
        assert(rename_in_spec(more, n, more.len() as int) == rename_in_spec(st.renames[last], n, st.renames[last].len() as int));
        rename_of_prefix(after.renames, st.renames, n, last);
    }
}

proof fn rename_in_prefix(a: Seq<(Seq<char>, Seq<char>)>, b: Seq<(Seq<char>, Seq<char>)>, name: Seq<char>, n: int)
    requires
        0 <= n <= a.len(),
        n <= b.len(),
        forall|k: int| 0 <= k < n ==> #[trigger] a[k] == b[k],
    ensures
        rename_in_spec(a, name, n) == rename_in_spec(b, name, n),
    decreases n,
{
    if n >= 1 {
        assert(a[n - 1] == b[n - 1]);
        rename_in_prefix(a, b, name, n - 1);
    }
}

proof fn rename_of_prefix(a: Seq<Seq<(Seq<char>, Seq<char>)>>, b: Seq<Seq<(Seq<char>, Seq<char>)>>, name: Seq<char>, n: int)
    requires
        0 <= n <= a.len(),
        n <= b.len(),
        forall|k: int| 0 <= k < n ==> #[trigger] a[k] == b[k],
    ensures
        rename_of_spec(a, name, n) == rename_of_spec(b, name, n),
    decreases n,
{
    if n >= 1 {
        assert(a[n - 1] == b[n - 1]);
        rename_of_prefix(a, b, name, n - 1);
    }
}

// ---- owned locals -----------------------------------------------------------------

proof fn without_has_not(v: Seq<Seq<char>>, name: Seq<char>, i: int, out: Seq<Seq<char>>)
    requires
        0 <= i,
        !out.contains(name),
    ensures
        !without_from_spec(v, name, i, out).contains(name),
    decreases v.len() - i,
{
    if i < v.len() {
        if v[i] == name {
            without_has_not(v, name, i + 1, out);
        } else {
            let more = out.push(v[i]);
            assert forall|k: int| 0 <= k < more.len() implies more[k] != name by {
                if k < out.len() {
                    assert(out[k] != name) by {
                        if out[k] == name {
                            assert(out.contains(name));
                        }
                    }
                }
            }
            without_has_not(v, name, i + 1, more);
        }
    }
}

proof fn without_in_each_has_not(v: Seq<Seq<Seq<char>>>, name: Seq<char>, i: int, out: Seq<Seq<Seq<char>>>)
    requires
        0 <= i,
        forall|k: int| 0 <= k < out.len() ==> !(#[trigger] out[k]).contains(name),
    ensures
        forall|k: int| 0 <= k < without_in_each_spec(v, name, i, out).len() ==> !(#[trigger] without_in_each_spec(v, name, i, out)[k]).contains(name),
    decreases v.len() - i,
{
    if i < v.len() {
        without_has_not(v[i], name, 0, Seq::empty());
        let more = out.push(without_spec(v[i], name));
        assert forall|k: int| 0 <= k < more.len() implies !(#[trigger] more[k]).contains(name) by {
            if k < out.len() {
                assert(more[k] == out[k]);
            }
        }
        without_in_each_has_not(v, name, i + 1, more);
        assert(without_in_each_spec(v, name, i, out) == without_in_each_spec(v, name, i + 1, more));
    }
}

/// A local that was handed over is owned by no scope under the identifier that it has in the
/// generated code. What scopes own under other identifiers stays.
pub proof fn law_transferred_local_is_not_owned(p: Env, st: GenV, name: Seq<char>)
    ensures
        ({
            let after = transfer_owned_spec(p, st, name).owned;
            let cpp = cpp_name_spec(p, st, name);
            &&& after.len() == st.owned.len()
            &&& forall|k: int| 0 <= k < after.len() ==> !(#[trigger] after[k]).contains(cpp)
            &&& forall|k: int, other: Seq<char>| 0 <= k < after.len() && other != cpp
                ==> (#[trigger] after[k].contains(other) <==> st.owned[k].contains(other))
        }),
{
    reveal(transfer_owned_spec);
    let cpp = cpp_name_spec(p, st, name);
    without_in_each_has_not(st.owned, cpp, 0, Seq::empty());
    let after = transfer_owned_spec(p, st, name).owned;
    assert forall|k: int, other: Seq<char>| 0 <= k < after.len() && other != cpp
        implies (#[trigger] after[k].contains(other) <==> st.owned[k].contains(other)) by {
        others_in_each_stay(st.owned, cpp, 0, Seq::empty(), k, other);
    }
    others_in_each_stay(st.owned, cpp, 0, Seq::empty(), 0, cpp);
}

proof fn others_stay(v: Seq<Seq<char>>, name: Seq<char>, i: int, out: Seq<Seq<char>>, other: Seq<char>)
    requires
        0 <= i <= v.len(),
        other != name,
        out.contains(other) <==> v.take(i).contains(other),
    ensures
        without_from_spec(v, name, i, out).contains(other) <==> v.contains(other),
    decreases v.len() - i,
{
    if i < v.len() {
        let more = if v[i] == name { out } else { out.push(v[i]) };
        assert(v.take(i + 1) =~= v.take(i).push(v[i]));
        pushed(v.take(i), v[i], other);
        pushed(out, v[i], other);
        others_stay(v, name, i + 1, more, other);
    } else {
        assert(v.take(i) =~= v);
    }
}

proof fn pushed(v: Seq<Seq<char>>, x: Seq<char>, other: Seq<char>)
    ensures
        v.push(x).contains(other) <==> v.contains(other) || x == other,
{
    let more = v.push(x);
    assert(more[v.len() as int] == x);
    if v.contains(other) {
        let k = choose|k: int| 0 <= k < v.len() && v[k] == other;
        assert(more[k] == other);
    }
    if more.contains(other) {
        let k = choose|k: int| 0 <= k < more.len() && more[k] == other;
        if k < v.len() {
            assert(v[k] == other);
        }
    }
}

proof fn others_in_each_stay(v: Seq<Seq<Seq<char>>>, name: Seq<char>, i: int, out: Seq<Seq<Seq<char>>>, k: int, other: Seq<char>)
    requires
        0 <= i <= v.len(),
        out.len() == i,
        other != name && 0 <= k < i ==> (out[k].contains(other) <==> v[k].contains(other)),
    ensures
        without_in_each_spec(v, name, i, out).len() == v.len(),
        other != name && 0 <= k < v.len() ==> (without_in_each_spec(v, name, i, out)[k].contains(other) <==> v[k].contains(other)),
    decreases v.len() - i,
{
    if i < v.len() {
        let more = out.push(without_spec(v[i], name));
        if other != name {
            assert(v[i].take(0) =~= Seq::empty());
            others_stay(v[i], name, 0, Seq::empty(), other);
        }
        others_in_each_stay(v, name, i + 1, more, k, other);
    }
}

/// Locals are deleted in the reverse of the order in which they were acquired.
pub proof fn law_deletes_are_reversed(names: Seq<Seq<char>>, last: Seq<char>, t: Seq<char>)
    ensures
        deletes_of_spec(names.push(last), t, (names.len() + 1) as int, Seq::empty())
            == deletes_of_spec(names, t, names.len() as int, t + "delete "@ + last + ";\n"@),
{
    let all = names.push(last);
    let first = t + "delete "@ + last + ";\n"@;
    assert(Seq::<char>::empty() + first =~= first);
    deletes_prefix(names, last, t, names.len() as int, first);
}

proof fn deletes_prefix(names: Seq<Seq<char>>, last: Seq<char>, t: Seq<char>, n: int, out: Seq<char>)
    requires
        0 <= n <= names.len(),
    ensures
        deletes_of_spec(names.push(last), t, n, out) == deletes_of_spec(names, t, n, out),
    decreases n,
{
    if n >= 1 {
        assert(names.push(last)[n - 1] == names[n - 1]);
        deletes_prefix(names, last, t, n - 1, out + (t + "delete "@ + names[n - 1] + ";\n"@));
    }
}

proof fn none_owned(scopes: Seq<Seq<Seq<char>>>, i: int, k: int)
    requires
        0 <= i <= k < scopes.len(),
        !any_owned_spec(scopes, i),
    ensures
        scopes[k].len() == 0,
    decreases k - i,
{
    if i < k {
        none_owned(scopes, i + 1, k);
    }
}

proof fn no_deletes(scopes: Seq<Seq<Seq<char>>>, t: Seq<char>, n: int)
    requires
        0 <= n <= scopes.len(),
        forall|k: int| 0 <= k < scopes.len() ==> (#[trigger] scopes[k]).len() == 0,
    ensures
        deletes_of_all_spec(scopes, t, n, Seq::empty()) == Seq::<char>::empty(),
    decreases n,
{
    if n >= 1 {
        assert(scopes[n - 1].len() == 0);
        no_deletes(scopes, t, n - 1);
    }
}

/// Where no scope owns a local, nothing is deleted.
pub proof fn law_nothing_owned_nothing_deleted(p: Env, st: GenV, t: Seq<char>)
    requires
        !has_owned_locals_spec(p, st),
    ensures
        all_owned_deletes_spec(p, st, t) == Seq::<char>::empty(),
{
    reveal(has_owned_locals_spec);
    reveal(all_owned_deletes_spec);
    assert forall|k: int| 0 <= k < st.owned.len() implies (#[trigger] st.owned[k]).len() == 0 by {
        none_owned(st.owned, 0, k);
    }
    no_deletes(st.owned, t, st.owned.len() as int);
}

// ---- generated files -----------------------------------------------------------------

/// A source file is the text of what is generated with diagnostics, at the default depth and
/// with traces.
pub proof fn law_source_is_its_text(prog: ProgramV, mi: int)
    ensures
        generate_source_spec(prog, mi) == (match generate_source_diagnostics_spec(prog, mi, 1, false) {
            Some(out) => Some(out.0),
            None => None,
        }),
{
    reveal(generate_source_spec);
}

proof fn same_start(prog: ProgramV, mi: int, class: ClassV, no_trace: bool)
    ensures
        start_gen_spec(prog, mi, class, 0, no_trace) == start_gen_spec(prog, mi, class, 1, no_trace),
{
    reveal(start_gen_spec);
}

proof fn same_classes(prog: ProgramV, mi: int, decls: Seq<DeclV>, no_trace: bool, i: int, out: Seq<char>, warnings: Seq<(int, Seq<char>)>, errors: Seq<(int, Seq<char>)>)
    requires
        0 <= i,
    ensures
        classes_text_spec(prog, mi, decls, 0, no_trace, i, out, warnings, errors) == classes_text_spec(prog, mi, decls, 1, no_trace, i, out, warnings, errors),
    decreases decls.len() - i,
{
    if i < decls.len() {
        match decls[i] {
            DeclV::Class(c) => {
                same_start(prog, mi, *c, no_trace);
                let (text, w, e) = class_defs_spec(prog, mi, *c, 0, no_trace, false);
                same_classes(prog, mi, decls, no_trace, i + 1, out + text,
                    add_reports_spec(add_reports_spec(warnings, w), advisories_spec(prog, mi, *c)), add_reports_spec(errors, e));
                same_classes(prog, mi, decls, no_trace, i + 1, out, warnings, errors);
            },
            _ => {
                same_classes(prog, mi, decls, no_trace, i + 1, out, warnings, errors);
            },
        }
    }
}

/// A depth of nothing is a depth of one: a call that a statement takes whole is never moved out.
pub proof fn law_depth_is_at_least_one(prog: ProgramV, mi: int, no_trace: bool)
    ensures
        generate_source_diagnostics_spec(prog, mi, 0, no_trace) == generate_source_diagnostics_spec(prog, mi, 1, no_trace),
{
    reveal(generate_source_diagnostics_spec);
    reveal(source_text_spec);
    same_start(prog, mi, empty_class_spec(), no_trace);
    if let Some(m) = module_at_spec(prog, mi) {
        let decls = m.file.decls;
        let head = "#include \""@ + m.stem + ".h\"\n\n"@;
        let (text, w, e) = module_defs_spec(prog, mi, decls, 0, no_trace, false);
        let open = ns_open_spec(m.package, 0, Seq::empty());
        same_classes(prog, mi, decls, no_trace, 0, head + open + "\n"@ + text, w, e);
        assert(module_defs_spec(prog, mi, decls, 0, no_trace, false) == module_defs_spec(prog, mi, decls, 1, no_trace, false));
        assert(export_defs_spec(prog, mi, decls, ""@, 0, no_trace) == export_defs_spec(prog, mi, decls, ""@, 1, no_trace));
        assert(export_defs_spec(prog, mi, decls, "\n"@, 0, no_trace) == export_defs_spec(prog, mi, decls, "\n"@, 1, no_trace));
        let none = source_text_spec(prog, mi, m, 0, no_trace);
        assert(none == source_text_spec(prog, mi, m, 1, no_trace));
        if !m.is_stdafx && m.has_header && (has_ns_body_spec(decls) || any_of_spec(decls, Sort::Export, 0)) {
            assert(generate_source_diagnostics_spec(prog, mi, 0, no_trace) == Some(none));
            assert(generate_source_diagnostics_spec(prog, mi, 1, no_trace) == Some(none));
        } else {
            assert(generate_source_diagnostics_spec(prog, mi, 0, no_trace) is None);
            assert(generate_source_diagnostics_spec(prog, mi, 1, no_trace) is None);
        }
    }
}

/// A header is the text of what is generated without options.
pub proof fn law_header_is_its_text(prog: ProgramV, mi: int)
    ensures
        generate_header_spec(prog, mi) == (match generate_header_with_spec(prog, mi, plain_opts_spec()) {
            Some(out) => Some(out.0),
            None => None,
        }),
{
    reveal(generate_header_spec);
}

/// The prelude, and a module that has nothing to declare, get neither a header nor a source.
pub proof fn law_no_header_no_source(prog: ProgramV, mi: int, opts: HeaderOptsV, depth: int, no_trace: bool)
    requires
        0 <= mi < prog.modules.len(),
        prog.modules[mi].is_stdafx || !prog.modules[mi].has_header,
    ensures
        generate_header_with_spec(prog, mi, opts) is None,
        generate_source_diagnostics_spec(prog, mi, depth, no_trace) is None,
{
    reveal(generate_header_with_spec);
    reveal(generate_source_diagnostics_spec);
    reveal(module_at_spec);
}

} // verus!
