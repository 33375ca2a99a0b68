//! Conditional compilation around declarations and class members.
//!
//! Inside a function body a Haxe `#if` is handed to the C++ preprocessor (see
//! `parse_stmt`). Around a class member or a top-level declaration that cannot work:
//! the member is split between a header declaration and a `.cpp` definition, and an
//! import or a whole type has no single place to wrap. There the condition is decided
//! here, as Haxe decides it, against the flags given with `-D NAME`: a flag is true
//! when defined, and `!`, `&&`, `||` and parentheses combine flags. The branch that
//! holds is parsed; the others are skipped token by token, nested directives included.
//! A condition outside that grammar (a version comparison, a value) is an error.

use vstd::prelude::*;

use crate::lexer::{at, at_spec, cut, cut_spec, is_word, is_word_spec};
use crate::parser::{ParseError, ParseErrorV};
use crate::parser::cursor::{Ctx, PResult, Parser, Pr, St, at_eof_spec, bump_spec, err_spec, peek_spec, stay};
use crate::text::{cat3, chars_of, dup_texts, has_text, texts};
use crate::token::{PpKind, TokKind, TokKindV};

verus! {

broadcast use {crate::token::group_token, crate::text::group_texts};

/// The flags `#if` tests true against, at member and declaration level.
pub struct Defines {
    names: Vec<String>,
}

impl View for Defines {
    type V = Set<Seq<char>>;

    closed spec fn view(&self) -> Set<Seq<char>> {
        texts(self.names@).to_set()
    }
}

impl Defines {
    /// No flag.
    pub fn none() -> (r: Defines)
        ensures
            r@ == Set::<Seq<char>>::empty(),
    {
        let d = Defines { names: Vec::new() };
        proof {
            assert(texts(d.names@) =~= Seq::empty());
            assert(d@ =~= Set::empty());
        }
        d
    }

    pub fn dup(&self) -> (r: Defines)
        ensures
            r@ == self@,
    {
        Defines { names: dup_texts(&self.names) }
    }

    /// Whether a flag is defined.
    pub fn has(&self, name: &str) -> (r: bool)
        ensures
            r == self@.contains(name@),
    {
        has_text(&self.names, name)
    }
}

fn defined(defs: &Defines, name: &str) -> (r: bool)
    ensures
        r == defs@.contains(name@),
{
    defs.has(name)
}

/// The flags given with `-D NAME`.
pub fn set_defines(names: Vec<String>) -> (r: Defines)
    ensures
        r@ == texts(names@).to_set(),
{
    Defines { names }
}

/// Whether a character is white space: it has the Unicode property `White_Space`.
pub open spec fn white(c: char) -> bool {
    ||| '\u{9}' <= c && c <= '\u{D}'
    ||| c == ' '
    ||| c == '\u{85}'
    ||| c == '\u{A0}'
    ||| c == '\u{1680}'
    ||| '\u{2000}' <= c && c <= '\u{200A}'
    ||| c == '\u{2028}'
    ||| c == '\u{2029}'
    ||| c == '\u{202F}'
    ||| c == '\u{205F}'
    ||| c == '\u{3000}'
}

/// `char::is_whitespace`: whether the character has the Unicode property `White_Space`.
#[verifier::external_body]
fn is_white(c: char) -> (r: bool)
    ensures
        r == white(c),
{
    c.is_whitespace()
}

/// Past the white space from `i`, no further than `b`.
fn white_end(cs: &Vec<char>, b: usize, i: usize) -> (r: usize)
    requires
        b <= cs.len(),
    ensures
        (r as int) == white_end_spec(cs@, (b as int), (i as int)),
        i <= b ==> i <= r <= b,
{
    let ghost i_0 = i;
    let mut i: usize = i;
    #[verifier::loop_isolation(false)]
    loop
        invariant
            white_end_spec(cs@, (b as int), (i_0 as int)) == white_end_spec(cs@, (b as int), (i as int)),
            i_0 <= i,
            i_0 <= b ==> i <= b,
        decreases b - i,
    {
        if i < b && is_white(at(cs, i, 0)) {
            i = i + 1;
        } else {
            return i;
        }
    }
}

/// Back over the white space before `b`, no further than `a`.
fn white_start(cs: &Vec<char>, a: usize, b: usize) -> (r: usize)
    ensures
        (r as int) == white_start_spec(cs@, (a as int), (b as int)),
        a <= b ==> a <= r <= b,
{
    let ghost b_0 = b;
    let mut b: usize = b;
    #[verifier::loop_isolation(false)]
    loop
        invariant
            white_start_spec(cs@, (a as int), (b_0 as int)) == white_start_spec(cs@, (a as int), (b as int)),
            a <= b_0 ==> a <= b <= b_0,
            b_0 < a ==> b == b_0,
        decreases b - a,
    {
        if a < b && is_white(at(cs, b - 1, 0)) {
            b = b - 1;
        } else {
            return b;
        }
    }
}

/// The text without the white space around it.
pub open spec fn trim_spec(s: Seq<char>) -> Seq<char> {
    let a = white_end_spec(s, s.len() as int, 0);
    cut_spec(s, a, white_start_spec(s, a, s.len() as int))
}

/// A text without the white space around it.
pub fn trim(s: &str) -> (r: String)
    ensures
        r@ == trim_spec(s@),
{
    let cs = chars_of(s);
    let a: usize = white_end(&cs, cs.len(), 0);
    let b: usize = white_start(&cs, a, cs.len());
    cut(&cs, a, b)
}

/// The text without the white space at its end.
pub open spec fn trim_end_spec(s: Seq<char>) -> Seq<char> {
    cut_spec(s, 0, white_start_spec(s, 0, s.len() as int))
}

/// A text without the white space at its end.
pub fn trim_end(s: &str) -> (r: String)
    ensures
        r@ == trim_end_spec(s@),
{
    let cs = chars_of(s);
    let b: usize = white_start(&cs, 0, cs.len());
    cut(&cs, 0, b)
}

// ---- conditions -----------------------------------------------------------

fn is_blank(c: char) -> (r: bool)
    ensures
        r == is_blank_spec(c),
{
    c == ' ' || c == '\t' || c == '\n' || c == '\r' || c == '\u{c}'
}

fn blank_end(cs: &Vec<char>, i: usize) -> (r: usize)
    ensures
        (r as int) == blank_end_spec(cs@, (i as int)),
        i <= cs.len() ==> i <= r <= cs.len(),
{
    let ghost i_0 = i;
    let mut i: usize = i;
    #[verifier::loop_isolation(false)]
    loop
        invariant
            blank_end_spec(cs@, (i_0 as int)) == blank_end_spec(cs@, (i as int)),
            i_0 <= i,
            i_0 <= cs.len() ==> i <= cs.len(),
        decreases cs.len() - i,
    {
        if i < cs.len() && is_blank(at(cs, i, 0)) {
            i = i + 1;
        } else {
            return i;
        }
    }
}

fn is_flag_char(c: char) -> (r: bool)
    ensures
        r == is_flag_char_spec(c),
{
    is_word(c) || c == '.'
}

fn flag_end(cs: &Vec<char>, i: usize) -> (r: usize)
    ensures
        (r as int) == flag_end_spec(cs@, (i as int)),
        i <= cs.len() ==> i <= r <= cs.len(),
{
    let ghost i_0 = i;
    let mut i: usize = i;
    #[verifier::loop_isolation(false)]
    loop
        invariant
            flag_end_spec(cs@, (i_0 as int)) == flag_end_spec(cs@, (i as int)),
            i_0 <= i,
            i_0 <= cs.len() ==> i <= cs.len(),
        decreases cs.len() - i,
    {
        if i < cs.len() && is_flag_char(at(cs, i, 0)) {
            i = i + 1;
        } else {
            return i;
        }
    }
}

/// A condition: alternatives joined by `||`.
fn cond_or(cs: &Vec<char>, defs: &Defines, i: usize) -> (r: Option<(bool, usize)>)
    requires
        i <= cs.len(),
    ensures
        (match r { Some(y) => Some((y.0, (y.1 as int))), None => None }) == cond_or_spec(cs@, defs@, (i as int)),
        r matches Some(x) ==> i < x.1 <= cs.len(),
    decreases cs.len() - i, 3int,
{
    match cond_and(cs, defs, i) {
        None => None,
        Some((v, j)) => {
            cond_or_rest(cs, defs, v, j)
        },
    }
}

fn cond_or_rest(cs: &Vec<char>, defs: &Defines, v: bool, j: usize) -> (r: Option<(bool, usize)>)
    requires
        j <= cs.len(),
    ensures
        (match r { Some(y) => Some((y.0, (y.1 as int))), None => None }) == cond_or_rest_spec(cs@, defs@, v, (j as int)),
        r matches Some(x) ==> j <= x.1 <= cs.len(),
    decreases cs.len() - j, 3int,
{
    let ghost v_0 = v;
    let ghost j_0 = j;
    let mut v: bool = v;
    let mut j: usize = j;
    #[verifier::loop_isolation(false)]
    loop
        invariant
            cond_or_rest_spec(cs@, defs@, v_0, (j_0 as int)) == cond_or_rest_spec(cs@, defs@, v, (j as int)),
            j_0 <= j <= cs.len(),
        decreases cs.len() - j,
    {
        let k: usize = blank_end(cs, j);
        if !(at(cs, k, 0) == '|' && at(cs, k, 1) == '|') {
            return Some((v, j));
        }
        match cond_and(cs, defs, k + 2) {
            None => {
                return None;
            },
            Some((r, m)) => {
                v = v || r;
                j = m;
            },
        }
    }
}

fn cond_and(cs: &Vec<char>, defs: &Defines, i: usize) -> (r: Option<(bool, usize)>)
    requires
        i <= cs.len(),
    ensures
        (match r { Some(y) => Some((y.0, (y.1 as int))), None => None }) == cond_and_spec(cs@, defs@, (i as int)),
        r matches Some(x) ==> i < x.1 <= cs.len(),
    decreases cs.len() - i, 2int,
{
    match cond_unary(cs, defs, i) {
        None => None,
        Some((v, j)) => {
            cond_and_rest(cs, defs, v, j)
        },
    }
}

fn cond_and_rest(cs: &Vec<char>, defs: &Defines, v: bool, j: usize) -> (r: Option<(bool, usize)>)
    requires
        j <= cs.len(),
    ensures
        (match r { Some(y) => Some((y.0, (y.1 as int))), None => None }) == cond_and_rest_spec(cs@, defs@, v, (j as int)),
        r matches Some(x) ==> j <= x.1 <= cs.len(),
    decreases cs.len() - j, 2int,
{
    let ghost v_0 = v;
    let ghost j_0 = j;
    let mut v: bool = v;
    let mut j: usize = j;
    #[verifier::loop_isolation(false)]
    loop
        invariant
            cond_and_rest_spec(cs@, defs@, v_0, (j_0 as int)) == cond_and_rest_spec(cs@, defs@, v, (j as int)),
            j_0 <= j <= cs.len(),
        decreases cs.len() - j,
    {
        let k: usize = blank_end(cs, j);
        if !(at(cs, k, 0) == '&' && at(cs, k, 1) == '&') {
            return Some((v, j));
        }
        match cond_unary(cs, defs, k + 2) {
            None => {
                return None;
            },
            Some((r, m)) => {
                v = v && r;
                j = m;
            },
        }
    }
}

/// A flag, a negation, or a condition in parentheses.
fn cond_unary(cs: &Vec<char>, defs: &Defines, i: usize) -> (r: Option<(bool, usize)>)
    requires
        i <= cs.len(),
    ensures
        (match r { Some(y) => Some((y.0, (y.1 as int))), None => None }) == cond_unary_spec(cs@, defs@, (i as int)),
        r matches Some(x) ==> i < x.1 <= cs.len(),
    decreases cs.len() - i, 1int,
{
    let k: usize = blank_end(cs, i);
    if at(cs, k, 0) == '!' {
        return match cond_unary(cs, defs, k + 1) {
            None => None,
            Some((v, j)) => Some((!v, j)),
        };
    }
    if at(cs, k, 0) == '(' {
        return match cond_or(cs, defs, k + 1) {
            None => None,
            Some((v, j)) => {
                let m: usize = blank_end(cs, j);
                if at(cs, m, 0) == ')' {
                    Some((v, m + 1))
                } else {
                    None
                }
            },
        };
    }
    let e: usize = flag_end(cs, k);
    if e == k {
        None
    } else {
        Some((defined(defs, &cut(cs, k, e)), e))
    }
}

/// Whether a directive condition holds over the flags; `None` outside the grammar.
pub open spec fn evaluate_spec(cond: Seq<char>, defs: Set<Seq<char>>) -> Option<bool> {
    match cond_or_spec(cond, defs, 0) {
        None => None,
        Some((v, j)) => if blank_end_spec(cond, j) == cond.len() { Some(v) } else { None },
    }
}

/// Evaluate a directive condition over the flags; `None` if it is outside the grammar.
pub fn evaluate(cond: &str, defs: &Defines) -> (r: Option<bool>)
    ensures
        r == evaluate_spec(cond@, defs@),
{
    let cs = chars_of(cond);
    match cond_or(&cs, defs, 0) {
        None => None,
        Some((v, j)) => if blank_end(&cs, j) == cs.len() { Some(v) } else { None },
    }
}

impl Parser {
    fn decide(&self, cond: &str) -> (r: Option<bool>)
        ensures
            r == evaluate_spec(cond@, self.cx().defs),
    {
        evaluate(cond, self.flags())
    }

    fn pp_eval(&self, cond: &str) -> (r: Result<bool, ParseError>)
        requires
            self.wf(),
        ensures
            (match r { Ok(y) => Ok(y), Err(y) => Err(y.v()) }) == pp_eval_spec(self.cx(), self.st(), cond@),
    {
        match self.decide(cond) {
            Some(v) => Ok(v),
            None => Err(self.err(&cat3("conditional compilation around a declaration or member takes flags combined with `!`, `&&`, `||` and parentheses (decided with `-D NAME`); `#if ", cond, "` is outside that"))),
        }
    }

    /// Skip a branch that does not hold: up to the `#elseif` that does, the `#else`, or
    /// the `#end` of this directive, whichever comes first at this nesting level.
    fn pp_skip_inactive(&mut self, depth: usize) -> (r: PResult<()>)
        requires
            old(self).wf(),
            depth == 0,
        ensures
            final(self).wf(),
            final(self).cx() == old(self).cx(),
            pp_skip_inactive_spec(old(self).cx(), old(self).st(), (depth as int)) == (match r { Ok(x) => Pr::Done((), final(self).st()), Err(e) => Pr::Fail(e.v()) }),
            final(self).st().pos >= old(self).st().pos,
    {
        proof {
            self.count_fits();
        }
        let ghost depth_0 = depth;
        let mut depth: usize = depth;
        #[verifier::loop_isolation(false)]
        loop
            invariant
                self.wf(),
                self.cx() == old(self).cx(),
                self.st().pos >= old(self).st().pos,
                pp_skip_inactive_spec(old(self).cx(), old(self).st(), (depth_0 as int)) == pp_skip_inactive_spec(self.cx(), self.st(), (depth as int)),
                depth as int + self.left() <= usize::MAX,
            decreases self.left(),
        {
            proof {
                self.count_fits();
            }
            proof {
                reveal(pp_skip_inactive_spec);
            }
            if self.at_eof() {
                return Err(self.err("unterminated `#if` (no `#end`)"));
            }
            match self.peek() {
                TokKind::Pp(PpKind::If, _) => {
                    depth = depth + 1;
                    self.bump();
                },
                TokKind::Pp(PpKind::End, _) => {
                    self.bump();
                    if depth == 0 {
                        return Ok(());
                    }
                    depth = depth - 1;
                },
                TokKind::Pp(PpKind::ElseIf, cond) if depth == 0 => {
                    let cond = cond.clone();
                    self.bump();
                    if self.pp_eval(&cond)? {
                        return Ok(());
                    }
                },
                TokKind::Pp(PpKind::Else, _) if depth == 0 => {
                    self.bump();
                    return Ok(());
                },
                _ => {
                    self.bump();
                },
            }
        }
    }

    /// After the branch that held: skip every remaining branch to this directive's `#end`.
    fn pp_skip_to_end(&mut self, depth: usize) -> (r: PResult<()>)
        requires
            old(self).wf(),
            depth == 0,
        ensures
            final(self).wf(),
            final(self).cx() == old(self).cx(),
            pp_skip_to_end_spec(old(self).cx(), old(self).st(), (depth as int)) == (match r { Ok(x) => Pr::Done((), final(self).st()), Err(e) => Pr::Fail(e.v()) }),
            final(self).st().pos >= old(self).st().pos,
    {
        proof {
            self.count_fits();
        }
        let ghost depth_0 = depth;
        let mut depth: usize = depth;
        #[verifier::loop_isolation(false)]
        loop
            invariant
                self.wf(),
                self.cx() == old(self).cx(),
                self.st().pos >= old(self).st().pos,
                pp_skip_to_end_spec(old(self).cx(), old(self).st(), (depth_0 as int)) == pp_skip_to_end_spec(self.cx(), self.st(), (depth as int)),
                depth as int + self.left() <= usize::MAX,
            decreases self.left(),
        {
            proof {
                self.count_fits();
            }
            proof {
                reveal(pp_skip_to_end_spec);
            }
            if self.at_eof() {
                return Err(self.err("unterminated `#if` (no `#end`)"));
            }
            match self.peek() {
                TokKind::Pp(PpKind::If, _) => {
                    depth = depth + 1;
                    self.bump();
                },
                TokKind::Pp(PpKind::End, _) => {
                    self.bump();
                    if depth == 0 {
                        return Ok(());
                    }
                    depth = depth - 1;
                },
                _ => {
                    self.bump();
                },
            }
        }
    }

    /// A directive at declaration or member level, decided here: the caller's loop moves on to
    /// whatever the holding branch contains. `false`, with nothing taken, where none comes.
    pub fn outer_directive(&mut self) -> (r: PResult<bool>)
        requires
            old(self).wf(),
        ensures
            final(self).wf(),
            final(self).cx() == old(self).cx(),
            outer_directive_spec(old(self).cx(), old(self).st()) == (match r { Ok(x) => Pr::Done(x, final(self).st()), Err(e) => Pr::Fail(e.v()) }),
            final(self).st().pos >= old(self).st().pos,
            r matches Ok(true) ==> final(self).st().pos > old(self).st().pos,
            r matches Ok(taken) ==> taken == at_directive_spec(old(self).cx(), old(self).st()),
            r matches Ok(false) ==> final(self).st() == old(self).st(),
    {
        proof {
            reveal(outer_directive_spec);
        }
        match self.peek() {
            TokKind::Pp(kind, cond) => {
                let kind = *kind;
                let cond = cond.clone();
                self.bump();
                match kind {
                    PpKind::If => {
                        if !self.pp_eval(&cond)? {
                            self.pp_skip_inactive(0)?;
                        }
                    },
                    // Reached at the end of the branch that held.
                    PpKind::ElseIf | PpKind::Else => {
                        self.pp_skip_to_end(0)?;
                    },
                    PpKind::End => {},
                }
                Ok(true)
            },
            _ => Ok(false),
        }
    }

    /// Whether a conditional compilation directive comes.
    pub fn at_directive(&self) -> (r: bool)
        requires
            self.wf(),
        ensures
            r == at_directive_spec(self.cx(), self.st()),
    {
        matches!(self.peek(), TokKind::Pp(_, _))
    }
}

/// What [`white_end`] computes.
pub open spec fn white_end_spec(cs: Seq<char>, b: int, i: int) -> int
    decreases b - i,
{
    if (i < b) && (white(at_spec(cs, i, 0int))) {
        let i = i + 1;
        white_end_spec(cs, b, i)
    } else { i }
}

/// What [`white_start`] computes.
pub open spec fn white_start_spec(cs: Seq<char>, a: int, b: int) -> int
    decreases b - a,
{
    if (a < b) && (white(at_spec(cs, b - 1, 0int))) {
        let b = b - 1;
        white_start_spec(cs, a, b)
    } else { b }
}

/// What [`is_blank`] computes.
pub open spec fn is_blank_spec(c: char) -> bool
{
    (c == ' ') || (c == '\t') || (c == '\n') || (c == '\r') || (c == ('\u{c}'))
}

/// What [`blank_end`] computes.
pub open spec fn blank_end_spec(cs: Seq<char>, i: int) -> int
    decreases cs.len() - i,
{
    if (i < (cs.len())) && (is_blank_spec(at_spec(cs, i, 0int))) {
        let i = i + 1;
        blank_end_spec(cs, i)
    } else { i }
}

/// What [`is_flag_char`] computes.
pub open spec fn is_flag_char_spec(c: char) -> bool
{
    is_word_spec(c) || (c == '.')
}

/// What [`flag_end`] computes.
pub open spec fn flag_end_spec(cs: Seq<char>, i: int) -> int
    decreases cs.len() - i,
{
    if (i < (cs.len())) && (is_flag_char_spec(at_spec(cs, i, 0int))) {
        let i = i + 1;
        flag_end_spec(cs, i)
    } else { i }
}

/// What [`cond_or`] computes.
pub open spec fn cond_or_spec(cs: Seq<char>, defs: Set<Seq<char>>, i: int) -> Option<(bool, int)>
    decreases cs.len() - i, 3int,
{
    match cond_and_spec(cs, defs, i) {
        None => { None },
        Some((v, j)) => {
            if !((i < j) && (j <= (cs.len()))) { arbitrary() } else { cond_or_rest_spec(cs, defs, v, j) }
        },
    }
}

/// What [`cond_or_rest`] computes.
pub open spec fn cond_or_rest_spec(cs: Seq<char>, defs: Set<Seq<char>>, v: bool, j: int) -> Option<(bool, int)>
    decreases cs.len() - j, 3int,
{
    let k: int = blank_end_spec(cs, j);
    if !((at_spec(cs, k, 0int) == '|') && (at_spec(cs, k, 1int) == '|')) { Some((v, j)) } else {
        if !((j <= k) && (k < (cs.len()))) { arbitrary() } else {
            match cond_and_spec(cs, defs, k + 2) {
                None => { None },
                Some((r, m)) => {
                    if !((j < m) && (m <= (cs.len()))) { arbitrary() } else {
                        let v = v || r;
                        let j = m;
                        cond_or_rest_spec(cs, defs, v, j)
                    }
                },
            }
        }
    }
}

/// What [`cond_and`] computes.
pub open spec fn cond_and_spec(cs: Seq<char>, defs: Set<Seq<char>>, i: int) -> Option<(bool, int)>
    decreases cs.len() - i, 2int,
{
    match cond_unary_spec(cs, defs, i) {
        None => { None },
        Some((v, j)) => {
            if !((i < j) && (j <= (cs.len()))) { arbitrary() } else { cond_and_rest_spec(cs, defs, v, j) }
        },
    }
}

/// What [`cond_and_rest`] computes.
pub open spec fn cond_and_rest_spec(cs: Seq<char>, defs: Set<Seq<char>>, v: bool, j: int) -> Option<(bool, int)>
    decreases cs.len() - j, 2int,
{
    let k: int = blank_end_spec(cs, j);
    if !((at_spec(cs, k, 0int) == '&') && (at_spec(cs, k, 1int) == '&')) { Some((v, j)) } else {
        if !((j <= k) && (k < (cs.len()))) { arbitrary() } else {
            match cond_unary_spec(cs, defs, k + 2) {
                None => { None },
                Some((r, m)) => {
                    if !((j < m) && (m <= (cs.len()))) { arbitrary() } else {
                        let v = v && r;
                        let j = m;
                        cond_and_rest_spec(cs, defs, v, j)
                    }
                },
            }
        }
    }
}

/// What [`cond_unary`] computes.
pub open spec fn cond_unary_spec(cs: Seq<char>, defs: Set<Seq<char>>, i: int) -> Option<(bool, int)>
    decreases cs.len() - i, 1int,
{
    let k: int = blank_end_spec(cs, i);
    if !((i <= k) && (k <= (cs.len()))) { arbitrary() } else {
        if at_spec(cs, k, 0int) == '!' {
            match cond_unary_spec(cs, defs, k + 1) {
                None => { None },
                Some((v, j)) => { Some((!v, j)) },
            }
        } else {
            if at_spec(cs, k, 0int) == '(' {
                match cond_or_spec(cs, defs, k + 1) {
                    None => { None },
                    Some((v, j)) => {
                        let m: int = blank_end_spec(cs, j);
                        if at_spec(cs, m, 0int) == ')' { Some((v, m + 1)) } else { None }
                    },
                }
            } else {
                let e: int = flag_end_spec(cs, k);
                if e == k { None } else { Some((defs.contains(cut_spec(cs, k, e)), e)) }
            }
        }
    }
}

/// What [`Parser::pp_eval`] computes.
pub open spec fn pp_eval_spec(c: Ctx, st: St, cond: Seq<char>) -> Result<bool, ParseErrorV>
{
    match evaluate_spec(cond, c.defs) {
        Some(v) => { Ok(v) },
        None => {
            Err(err_spec(c, st, "conditional compilation around a declaration or member takes flags combined with `!`, `&&`, `||` and parentheses (decided with `-D NAME`); `#if "@ + cond + "` is outside that"@))
        },
    }
}

/// What [`Parser::pp_skip_inactive`] computes.
#[verifier::opaque]
pub open spec fn pp_skip_inactive_spec(c: Ctx, st: St, depth: int) -> Pr<()>
    decreases c.toks.len() - st.pos,
{
    match { if at_eof_spec(c, st) { Pr::Fail(err_spec(c, st, "unterminated `#if` (no `#end`)"@)) } else { Pr::Done((), st) } } {
        Pr::Fail(e) => Pr::Fail(e),
        Pr::Done(_, st) => {
            match peek_spec(c, st) {
                TokKindV::Pp(PpKind::If, _) => {
                    let depth = depth + 1;
                    let st = bump_spec(c, st);
                    pp_skip_inactive_spec(c, st, depth)
                },
                TokKindV::Pp(PpKind::End, _) => {
                    let st = bump_spec(c, st);
                    if depth == 0 { Pr::Done((), st) } else {
                        let depth = depth - 1;
                        pp_skip_inactive_spec(c, st, depth)
                    }
                },
                TokKindV::Pp(PpKind::ElseIf, cond) if depth == 0 => {
                    let cond = cond;
                    let st = bump_spec(c, st);
                    match pp_eval_spec(c, st, cond) {
                        Err(e) => Pr::Fail(e),
                        Ok(x1) => {
                            if x1 { Pr::Done((), st) } else { pp_skip_inactive_spec(c, st, depth) }
                        },
                    }
                },
                TokKindV::Pp(PpKind::Else, _) if depth == 0 => {
                    let st = bump_spec(c, st);
                    Pr::Done((), st)
                },
                _ => {
                    let st = bump_spec(c, st);
                    pp_skip_inactive_spec(c, st, depth)
                },
            }
        },
    }
}

/// What [`Parser::pp_skip_to_end`] computes.
#[verifier::opaque]
pub open spec fn pp_skip_to_end_spec(c: Ctx, st: St, depth: int) -> Pr<()>
    decreases c.toks.len() - st.pos,
{
    match { if at_eof_spec(c, st) { Pr::Fail(err_spec(c, st, "unterminated `#if` (no `#end`)"@)) } else { Pr::Done((), st) } } {
        Pr::Fail(e) => Pr::Fail(e),
        Pr::Done(_, st) => {
            match peek_spec(c, st) {
                TokKindV::Pp(PpKind::If, _) => {
                    let depth = depth + 1;
                    let st = bump_spec(c, st);
                    pp_skip_to_end_spec(c, st, depth)
                },
                TokKindV::Pp(PpKind::End, _) => {
                    let st = bump_spec(c, st);
                    if depth == 0 { Pr::Done((), st) } else {
                        let depth = depth - 1;
                        pp_skip_to_end_spec(c, st, depth)
                    }
                },
                _ => {
                    let st = bump_spec(c, st);
                    pp_skip_to_end_spec(c, st, depth)
                },
            }
        },
    }
}

/// What [`Parser::outer_directive`] computes.
#[verifier::opaque]
pub open spec fn outer_directive_spec(c: Ctx, st: St) -> Pr<bool>
{
    match peek_spec(c, st) {
        TokKindV::Pp(kind, cond) => {
            let kind = kind;
            let cond = cond;
            let st = bump_spec(c, st);
            match { match kind {
                    PpKind::If => {
                        match pp_eval_spec(c, st, cond) {
                            Err(e) => Pr::Fail(e),
                            Ok(x1) => {
                                if !x1 {
                                    match stay(c, st, pp_skip_inactive_spec(c, st, 0int)) {
                                        Pr::Fail(e) => Pr::Fail(e),
                                        Pr::Done(_, st) => { Pr::Done((), st) },
                                    }
                                } else { Pr::Done((), st) }
                            },
                        }
                    },
                    PpKind::ElseIf | PpKind::Else => {
                        match stay(c, st, pp_skip_to_end_spec(c, st, 0int)) {
                            Pr::Fail(e) => Pr::Fail(e),
                            Pr::Done(_, st) => { Pr::Done((), st) },
                        }
                    },
                    PpKind::End => { Pr::Done((), st) },
                } } {
                Pr::Fail(e) => Pr::Fail(e),
                Pr::Done(_, st) => { Pr::Done(true, st) },
            }
        },
        _ => { Pr::Done(false, st) },
    }
}

/// What [`Parser::at_directive`] computes.
pub open spec fn at_directive_spec(c: Ctx, st: St) -> bool
{
    (match peek_spec(c, st) { TokKindV::Pp(_, _) => true, _ => false })
}

} // verus!
