//! The lexer: source text to tokens.
//!
//! Comments and white space separate tokens and leave none. String escapes are kept as
//! written; a directive's condition is the rest of its line.

use vstd::prelude::*;

use crate::text::{cat3, chars_of, same, text_of};
use crate::token::{PpKind, Sym, TokKind, TokKindV, Token, TokenV, kw_of, kw_of_spec, tokens_v};

verus! {

broadcast use {crate::token::group_token, crate::text::group_texts};

/// Why a text is not a sequence of tokens.
#[derive(Debug, PartialEq, Eq)]
pub struct LexError {
    pub message: String,
    pub line: usize,
}

/// Mathematical model of [`LexError`].
pub struct LexErrorV {
    pub message: Seq<char>,
    pub line: int,
}

impl LexError {
    /// The value with every string and list seen as a sequence.
    pub open spec fn v(self) -> LexErrorV
    {
        LexErrorV {
            message: self.message@,
            line: self.line as int,
        }
    }
}

/// One more, up to the largest number there is.
pub fn inc(n: usize) -> (r: usize)
    ensures
        r as int == inc_spec(n as int),
{
    if n < usize::MAX {
        n + 1
    } else {
        n
    }
}

/// One more, up to the largest number there is.
pub open spec fn inc_spec(n: int) -> int {
    if n < usize::MAX {
        n + 1
    } else {
        n
    }
}

/// The character `k` places after `i`, or `\0` past the end.
pub open spec fn at_spec(cs: Seq<char>, i: int, k: int) -> char {
    if 0 <= i + k < cs.len() {
        cs[i + k]
    } else {
        '\0'
    }
}

/// The character `k` behind `i`; NUL where there is none.
pub fn at(cs: &Vec<char>, i: usize, k: usize) -> (r: char)
    ensures
        r == at_spec(cs@, i as int, k as int),
{
    if i < cs.len() && k < cs.len() - i {
        cs[i + k]
    } else {
        '\0'
    }
}

/// The text from `a` up to `b`, empty where that is no span of the text.
pub open spec fn cut_spec(cs: Seq<char>, a: int, b: int) -> Seq<char> {
    if 0 <= a <= b <= cs.len() {
        cs.subrange(a, b)
    } else {
        Seq::empty()
    }
}

/// The characters from `a` up to `b`; nothing where there are none such.
pub fn cut(cs: &Vec<char>, a: usize, b: usize) -> (r: String)
    ensures
        r@ == cut_spec(cs@, a as int, b as int),
{
    if a <= b && b <= cs.len() {
        text_of(cs, a, b)
    } else {
        String::new()
    }
}

/// A character as a text.
pub fn text_of_char(c: char) -> (r: String)
    ensures
        r@ == seq![c],
{
    let mut s = String::new();
    s.push(c);
    proof {
        assert(s@ =~= seq![c]);
    }
    s
}

/// Whether a character is a decimal digit.
pub fn is_digit(c: char) -> (r: bool)
    ensures
        r == is_digit_spec(c),
{
    '0' <= c && c <= '9'
}

/// Whether a character is a letter.
pub fn is_alpha(c: char) -> (r: bool)
    ensures
        r == is_alpha_spec(c),
{
    ('a' <= c && c <= 'z') || ('A' <= c && c <= 'Z')
}

/// Whether a character can stand in a name.
pub fn is_word(c: char) -> (r: bool)
    ensures
        r == is_word_spec(c),
{
    is_alpha(c) || is_digit(c) || c == '_'
}

/// Whether a character is a hexadecimal digit.
pub fn is_hex(c: char) -> (r: bool)
    ensures
        r == is_hex_spec(c),
{
    is_digit(c) || ('a' <= c && c <= 'f') || ('A' <= c && c <= 'F')
}

/// The end of the run of word characters from `i`.
pub fn word_end(cs: &Vec<char>, i: usize) -> (r: usize)
    ensures
        (r as int) == word_end_spec(cs@, (i as int)),
        i <= cs.len() ==> i <= r <= cs.len(),
        forall|k: int| i <= k < r ==> is_word_spec(#[trigger] cs@[k]),
        r < cs.len() ==> !(is_word_spec(cs@[r as int])),
{
    let ghost i_0 = i;
    let mut i: usize = i;
    #[verifier::loop_isolation(false)]
    loop
        invariant
            word_end_spec(cs@, (i_0 as int)) == word_end_spec(cs@, (i as int)),
            i_0 <= i,
            i_0 <= cs.len() ==> i <= cs.len(),
            forall|k: int| i_0 <= k < i ==> is_word_spec(#[trigger] cs@[k]),
        decreases cs.len() - i,
    {
        if i < cs.len() && is_word(at(cs, i, 0)) {
            i = i + 1;
        } else {
            return i;
        }
    }
}

fn digits_end(cs: &Vec<char>, i: usize) -> (r: usize)
    ensures
        (r as int) == digits_end_spec(cs@, (i as int)),
        i <= cs.len() ==> i <= r <= cs.len(),
        i < cs.len() && is_digit_spec(cs[i as int]) ==> i < r,
        forall|k: int| i <= k < r ==> is_digit_spec(#[trigger] cs@[k]),
        r < cs.len() ==> !(is_digit_spec(cs@[r as int])),
{
    let ghost i_0 = i;
    let mut i: usize = i;
    #[verifier::loop_isolation(false)]
    loop
        invariant
            digits_end_spec(cs@, (i_0 as int)) == digits_end_spec(cs@, (i as int)),
            i_0 <= i,
            i_0 <= cs.len() ==> i <= cs.len(),
            forall|k: int| i_0 <= k < i ==> is_digit_spec(#[trigger] cs@[k]),
        decreases cs.len() - i,
    {
        if i < cs.len() && is_digit(at(cs, i, 0)) {
            i = i + 1;
        } else {
            return i;
        }
    }
}

fn hex_end(cs: &Vec<char>, i: usize) -> (r: usize)
    ensures
        (r as int) == hex_end_spec(cs@, (i as int)),
        i <= cs.len() ==> i <= r <= cs.len(),
        forall|k: int| i <= k < r ==> is_hex_spec(#[trigger] cs@[k]),
        r < cs.len() ==> !(is_hex_spec(cs@[r as int])),
{
    let ghost i_0 = i;
    let mut i: usize = i;
    #[verifier::loop_isolation(false)]
    loop
        invariant
            hex_end_spec(cs@, (i_0 as int)) == hex_end_spec(cs@, (i as int)),
            i_0 <= i,
            i_0 <= cs.len() ==> i <= cs.len(),
            forall|k: int| i_0 <= k < i ==> is_hex_spec(#[trigger] cs@[k]),
        decreases cs.len() - i,
    {
        if i < cs.len() && is_hex(at(cs, i, 0)) {
            i = i + 1;
        } else {
            return i;
        }
    }
}

/// The end of the line that holds `i`, or where a line comment begins on it.
fn line_end(cs: &Vec<char>, stop_at_comment: bool, i: usize) -> (r: usize)
    ensures
        (r as int) == line_end_spec(cs@, stop_at_comment, (i as int)),
        i <= cs.len() ==> i <= r <= cs.len(),
{
    let ghost i_0 = i;
    let mut i: usize = i;
    #[verifier::loop_isolation(false)]
    loop
        invariant
            line_end_spec(cs@, stop_at_comment, (i_0 as int)) == line_end_spec(cs@, stop_at_comment, (i as int)),
            i_0 <= i,
            i_0 <= cs.len() ==> i <= cs.len(),
        decreases cs.len() - i,
    {
        if i < cs.len() && at(cs, i, 0) != '\n' && !(stop_at_comment && at(cs, i, 0) == '/' && at(cs, i, 1) == '/') {
            i = i + 1;
        } else {
            return i;
        }
    }
}

fn is_space(c: char) -> (r: bool)
    ensures
        r == is_space_spec(c),
{
    c == ' ' || c == '\t' || c == '\r'
}

/// Past the blanks from `i`.
fn skip_blanks(cs: &Vec<char>, i: usize) -> (r: usize)
    ensures
        (r as int) == skip_blanks_spec(cs@, (i as int)),
        i <= cs.len() ==> i <= r <= cs.len(),
        forall|k: int| i <= k < r ==> is_space_spec(#[trigger] cs@[k]),
        r < cs.len() ==> !(is_space_spec(cs@[r as int])),
{
    let ghost i_0 = i;
    let mut i: usize = i;
    #[verifier::loop_isolation(false)]
    loop
        invariant
            skip_blanks_spec(cs@, (i_0 as int)) == skip_blanks_spec(cs@, (i as int)),
            i_0 <= i,
            i_0 <= cs.len() ==> i <= cs.len(),
            forall|k: int| i_0 <= k < i ==> is_space_spec(#[trigger] cs@[k]),
        decreases cs.len() - i,
    {
        if i < cs.len() && is_space(at(cs, i, 0)) {
            i = i + 1;
        } else {
            return i;
        }
    }
}

/// Back over the blanks before `b`, no further than `a`.
fn trim_blanks(cs: &Vec<char>, a: usize, b: usize) -> (r: usize)
    ensures
        (r as int) == trim_blanks_spec(cs@, (a as int), (b as int)),
        a <= b ==> a <= r <= b,
        forall|k: int| r <= k < b ==> is_space_spec(#[trigger] at_spec(cs@, k, 0)),
        a < r ==> !is_space_spec(at_spec(cs@, r - 1, 0)),
{
    let ghost b_0 = b;
    let mut b: usize = b;
    #[verifier::loop_isolation(false)]
    loop
        invariant
            trim_blanks_spec(cs@, (a as int), (b_0 as int)) == trim_blanks_spec(cs@, (a as int), (b as int)),
            a <= b_0 ==> a <= b <= b_0,
            b_0 < a ==> b == b_0,
            forall|k: int| b <= k < b_0 ==> is_space_spec(#[trigger] at_spec(cs@, k, 0)),
        decreases b - a,
    {
        if a < b && is_space(at(cs, b - 1, 0)) {
            b = b - 1;
        } else {
            return b;
        }
    }
}

/// The end of a number and whether it has a fraction or an exponent.
fn number_end(cs: &Vec<char>, i: usize) -> (r: (usize, bool))
    requires
        i < cs.len(),
    ensures
        ((r.0 as int), r.1) == number_end_spec(cs@, (i as int)),
        i < cs.len() && is_digit_spec(cs[i as int]) ==> i < r.0 <= cs.len(),
{
    if at(cs, i, 0) == '0' && (at(cs, i, 1) == 'x' || at(cs, i, 1) == 'X') {
        return (hex_end(cs, i + 2), false);
    }
    let j: usize = digits_end(cs, i);
    if at(cs, j, 0) == '.' && is_digit(at(cs, j, 1)) {
        let k: usize = digits_end(cs, j + 1);
        (exponent_end(cs, k), true)
    } else {
        let k: usize = exponent_end(cs, j);
        (k, k != j)
    }
}

/// Past an exponent at `i`, or `i` where there is none.
fn exponent_end(cs: &Vec<char>, i: usize) -> (r: usize)
    requires
        i <= cs.len(),
    ensures
        (r as int) == exponent_end_spec(cs@, (i as int)),
        i <= r <= cs.len(),
{
    if at(cs, i, 0) == 'e' || at(cs, i, 0) == 'E' {
        if is_digit(at(cs, i, 1)) {
            return digits_end(cs, i + 1);
        }
        if (at(cs, i, 1) == '+' || at(cs, i, 1) == '-') && is_digit(at(cs, i, 2)) {
            return digits_end(cs, i + 2);
        }
    }
    i
}

/// Past the body of a string up to its closing quote, and the line that stands on;
/// a backslash takes the next character with it.
fn string_end(cs: &Vec<char>, quote: char, i: usize, line: usize) -> (r: Option<(usize, usize)>)
    ensures
        (match r { Some(y) => Some(((y.0 as int), (y.1 as int))), None => None }) == string_end_spec(cs@, quote, (i as int), (line as int)),
        r matches Some(e) ==> i <= e.0 < cs.len(),
{
    let ghost i_0 = i;
    let ghost line_0 = line;
    let mut i: usize = i;
    let mut line: usize = line;
    #[verifier::loop_isolation(false)]
    loop
        invariant
            string_end_spec(cs@, quote, (i_0 as int), (line_0 as int)) == string_end_spec(cs@, quote, (i as int), (line as int)),
            i_0 <= i,
            i_0 <= cs.len() ==> i <= cs.len(),
        decreases cs.len() - i,
    {
        if i >= cs.len() {
            return None;
        }
        let c = at(cs, i, 0);
        if c == quote {
            return Some((i, line));
        }
        if c == '\n' {
            line = inc(line);
        }
        if c == '\\' && i + 1 < cs.len() {
            if at(cs, i, 1) == '\n' {
                line = inc(line);
            }
            i = i + 2;
        } else {
            i = i + 1;
        }
    }
}

/// Past the body of a regular expression up to its closing slash, on one line.
fn regex_end(cs: &Vec<char>, i: usize) -> (r: Option<usize>)
    ensures
        (match r { Some(y) => Some((y as int)), None => None }) == regex_end_spec(cs@, (i as int)),
        r matches Some(e) ==> i <= e < cs.len(),
{
    let ghost i_0 = i;
    let mut i: usize = i;
    #[verifier::loop_isolation(false)]
    loop
        invariant
            regex_end_spec(cs@, (i_0 as int)) == regex_end_spec(cs@, (i as int)),
            i_0 <= i,
            i_0 <= cs.len() ==> i <= cs.len(),
        decreases cs.len() - i,
    {
        if i >= cs.len() || at(cs, i, 0) == '\n' {
            return None;
        }
        if at(cs, i, 0) == '/' {
            return Some(i);
        }
        if at(cs, i, 0) == '\\' && i + 1 < cs.len() {
            i = i + 2;
        } else {
            i = i + 1;
        }
    }
}

/// Past a block comment whose body starts at `i`, and the line that stands on.
fn comment_end(cs: &Vec<char>, i: usize, line: usize) -> (r: Option<(usize, usize)>)
    ensures
        (match r { Some(y) => Some(((y.0 as int), (y.1 as int))), None => None }) == comment_end_spec(cs@, (i as int), (line as int)),
        r matches Some(e) ==> i < e.0 <= cs.len(),
{
    let ghost i_0 = i;
    let ghost line_0 = line;
    let mut i: usize = i;
    let mut line: usize = line;
    #[verifier::loop_isolation(false)]
    loop
        invariant
            comment_end_spec(cs@, (i_0 as int), (line_0 as int)) == comment_end_spec(cs@, (i as int), (line as int)),
            i_0 <= i,
            i_0 <= cs.len() ==> i <= cs.len(),
        decreases cs.len() - i,
    {
        if i >= cs.len() {
            return None;
        }
        if at(cs, i, 0) == '*' && at(cs, i, 1) == '/' {
            return Some((i + 2, line));
        }
        if at(cs, i, 0) == '\n' {
            line = inc(line);
        }
        i = i + 1;
    }
}

/// The longest symbol at `i` and its length.
fn sym_at(cs: &Vec<char>, i: usize) -> (r: Option<(Sym, usize)>)
    requires
        i < cs.len(),
    ensures
        (match r { Some(y) => Some((y.0, (y.1 as int))), None => None }) == sym_at_spec(cs@, (i as int)),
        r matches Some(s) ==> 1 <= s.1 <= 4 && i + s.1 <= cs.len(),
{
    let a = at(cs, i, 0);
    let b = at(cs, i, 1);
    let c = at(cs, i, 2);
    let d = at(cs, i, 3);
    if a == '>' && b == '>' && c == '>' && d == '=' {
        Some((Sym::UShrEq, 4usize))
    } else if a == '.' && b == '.' && c == '.' {
        Some((Sym::DotDotDot, 3usize))
    } else if a == '?' && b == '?' && c == '=' {
        Some((Sym::QuestionQuestionEq, 3usize))
    } else if a == '<' && b == '<' && c == '=' {
        Some((Sym::ShlEq, 3usize))
    } else if a == '>' && b == '>' && c == '=' {
        Some((Sym::ShrEq, 3usize))
    } else if a == '>' && b == '>' && c == '>' {
        Some((Sym::UShr, 3usize))
    } else if a == '?' && b == '.' {
        Some((Sym::QuestionDot, 2usize))
    } else if a == '?' && b == '?' {
        Some((Sym::QuestionQuestion, 2usize))
    } else if a == '-' && b == '>' {
        Some((Sym::Arrow, 2usize))
    } else if a == '=' && b == '>' {
        Some((Sym::FatArrow, 2usize))
    } else if a == '+' && b == '=' {
        Some((Sym::PlusEq, 2usize))
    } else if a == '-' && b == '=' {
        Some((Sym::MinusEq, 2usize))
    } else if a == '*' && b == '=' {
        Some((Sym::StarEq, 2usize))
    } else if a == '/' && b == '=' {
        Some((Sym::SlashEq, 2usize))
    } else if a == '%' && b == '=' {
        Some((Sym::PercentEq, 2usize))
    } else if a == '&' && b == '=' {
        Some((Sym::AmpEq, 2usize))
    } else if a == '|' && b == '=' {
        Some((Sym::PipeEq, 2usize))
    } else if a == '^' && b == '=' {
        Some((Sym::CaretEq, 2usize))
    } else if a == '&' && b == '&' {
        Some((Sym::AmpAmp, 2usize))
    } else if a == '|' && b == '|' {
        Some((Sym::PipePipe, 2usize))
    } else if a == '=' && b == '=' {
        Some((Sym::Eq, 2usize))
    } else if a == '!' && b == '=' {
        Some((Sym::Ne, 2usize))
    } else if a == '<' && b == '=' {
        Some((Sym::Le, 2usize))
    } else if a == '>' && b == '=' {
        Some((Sym::Ge, 2usize))
    } else if a == '<' && b == '<' {
        Some((Sym::Shl, 2usize))
    } else if a == '>' && b == '>' {
        Some((Sym::Shr, 2usize))
    } else if a == '+' && b == '+' {
        Some((Sym::PlusPlus, 2usize))
    } else if a == '-' && b == '-' {
        Some((Sym::MinusMinus, 2usize))
    } else if a == '(' {
        Some((Sym::LParen, 1usize))
    } else if a == ')' {
        Some((Sym::RParen, 1usize))
    } else if a == '[' {
        Some((Sym::LBracket, 1usize))
    } else if a == ']' {
        Some((Sym::RBracket, 1usize))
    } else if a == '{' {
        Some((Sym::LBrace, 1usize))
    } else if a == '}' {
        Some((Sym::RBrace, 1usize))
    } else if a == ',' {
        Some((Sym::Comma, 1usize))
    } else if a == ';' {
        Some((Sym::Semi, 1usize))
    } else if a == ':' {
        Some((Sym::Colon, 1usize))
    } else if a == '.' {
        Some((Sym::Dot, 1usize))
    } else if a == '?' {
        Some((Sym::Question, 1usize))
    } else if a == '=' {
        Some((Sym::Assign, 1usize))
    } else if a == '+' {
        Some((Sym::Plus, 1usize))
    } else if a == '-' {
        Some((Sym::Minus, 1usize))
    } else if a == '*' {
        Some((Sym::Star, 1usize))
    } else if a == '/' {
        Some((Sym::Slash, 1usize))
    } else if a == '%' {
        Some((Sym::Percent, 1usize))
    } else if a == '&' {
        Some((Sym::Amp, 1usize))
    } else if a == '|' {
        Some((Sym::Pipe, 1usize))
    } else if a == '^' {
        Some((Sym::Caret, 1usize))
    } else if a == '~' {
        Some((Sym::Tilde, 1usize))
    } else if a == '!' {
        Some((Sym::Bang, 1usize))
    } else if a == '<' {
        Some((Sym::Lt, 1usize))
    } else if a == '>' {
        Some((Sym::Gt, 1usize))
    } else {
        None
    }
}

/// The token a word is: a reserved word or an identifier.
fn word_token(s: String) -> (r: TokKind)
    ensures
        r.v() == word_token_spec(s@),
{
    match kw_of(&s) {
        Some(k) => TokKind::Kw(k),
        None => TokKind::Ident(s),
    }
}

/// The directive a word after `#` names.
fn directive(s: &str) -> (r: Option<PpKind>)
    ensures
        r == directive_spec(s@),
{
    if same(s, "if") {
        Some(PpKind::If)
    } else if same(s, "elseif") {
        Some(PpKind::ElseIf)
    } else if same(s, "else") {
        Some(PpKind::Else)
    } else if same(s, "end") {
        Some(PpKind::End)
    } else {
        None
    }
}

/// Whether a directive carries a condition.
fn has_condition(k: PpKind) -> (r: bool)
    ensures
        r == has_condition_spec(k),
{
    match k {
        PpKind::If | PpKind::ElseIf => true,
        _ => false,
    }
}

/// The token at `i`, past white space and comments: its kind, its end and the line the
/// next token starts on. `None` where white space or a comment stands at `i` instead;
/// the second part is then where to go on.
fn token_at(cs: &Vec<char>, i: usize, line: usize) -> (r: Result<(Option<TokKind>, usize, usize), LexError>)
    requires
        i < cs.len(),
    ensures
        (match r { Ok(y) => Ok(((match y.0 { Some(y) => Some(y.v()), None => None }), (y.1 as int), (y.2 as int))), Err(y) => Err(y.v()) }) == token_at_spec(cs@, (i as int), (line as int)),
        r matches Ok(x) ==> i < x.1 <= cs.len(),
{
    let c = at(cs, i, 0);
    let d = at(cs, i, 1);
    if c == '\n' {
        return Ok((None, i + 1, inc(line)));
    }
    if is_space(c) {
        return Ok((None, i + 1, line));
    }
    if c == '/' && d == '/' {
        return Ok((None, line_end(cs, false, i + 1), line));
    }
    if c == '/' && d == '*' {
        return match comment_end(cs, i + 2, line) {
            Some((e, l)) => Ok((None, e, l)),
            None => Err(LexError { message: "unterminated block comment".to_owned(), line }),
        };
    }
    if c == '\'' || c == '"' {
        return match string_end(cs, c, i + 1, line) {
            Some((e, l)) => Ok((
                Some(TokKind::Str { raw: cut(cs, i + 1, e), interpolated: c == '\'' }),
                e + 1,
                l,
            )),
            None => Err(LexError { message: "unterminated string literal".to_owned(), line }),
        };
    }
    if c == '~' && d == '/' {
        return match regex_end(cs, i + 2) {
            Some(e) => {
                let f: usize = word_end(cs, e + 1);
                Ok((
                    Some(TokKind::Regex { pattern: cut(cs, i + 2, e), flags: cut(cs, e + 1, f) }),
                    f,
                    line,
                ))
            },
            None => Err(LexError { message: "unterminated regular expression".to_owned(), line }),
        };
    }
    if is_digit(c) {
        let (e, float) = number_end(cs, i);
        let s = cut(cs, i, e);
        return Ok((Some(if float { TokKind::Float(s) } else { TokKind::Int(s) }), e, line));
    }
    if is_alpha(c) || c == '_' || c == '$' {
        let e: usize = word_end(cs, i + 1);
        return Ok((Some(word_token(cut(cs, i, e))), e, line));
    }
    if c == '@' {
        let a: usize = if d == ':' { i + 2 } else { i + 1 };
        let e: usize = word_end(cs, a);
        if e == a {
            return Err(LexError { message: "expected a metadata name after `@`".to_owned(), line });
        }
        return Ok((Some(TokKind::Meta(cut(cs, a, e))), e, line));
    }
    if c == '#' {
        let e: usize = word_end(cs, i + 1);
        return match directive(&cut(cs, i + 1, e)) {
            Some(k) => {
                if has_condition(k) {
                    let f: usize = line_end(cs, true, e);
                    let a: usize = skip_blanks(cs, e);
                    let b: usize = trim_blanks(cs, a, f);
                    Ok((Some(TokKind::Pp(k, cut(cs, a, b))), f, line))
                } else {
                    Ok((Some(TokKind::Pp(k, String::new())), e, line))
                }
            },
            None => Err(LexError {
                message: cat3("unknown directive `#", &cut(cs, i + 1, e), "`"),
                line,
            }),
        };
    }
    match sym_at(cs, i) {
        Some((s, n)) => Ok((Some(TokKind::Sym(s)), i + n, line)),
        None => Err(LexError {
            message: cat3("unexpected character `", &text_of_char(c), "`"),
            line,
        }),
    }
}

/// Whether a token list ends in an end-of-file token.
pub open spec fn ends_in_eof(toks: Seq<TokenV>) -> bool {
    toks.len() > 0 && toks.last().kind is Eof
}

/// Whether tokens stand one after the other in the first `n` characters of a text.
pub open spec fn in_order(toks: Seq<TokenV>, n: int) -> bool {
    &&& forall|k: int| 0 <= k < toks.len() ==> 0 <= (#[trigger] toks[k]).start <= toks[k].end <= n
    &&& forall|j: int, k: int| 0 <= j < k < toks.len() ==> (#[trigger] toks[j]).end <= (#[trigger] toks[k]).start
}

/// The tokens of the text from `i`, appended to `out`.
fn lex_from(cs: &Vec<char>, i: usize, line: usize, out: Vec<Token>) -> (r: Result<Vec<Token>, LexError>)
    requires
        i <= cs.len(),
        in_order(tokens_v(out@), i as int),
    ensures
        (match r { Ok(y) => Ok(tokens_v(y@)), Err(y) => Err(y.v()) }) == lex_from_spec(cs@, (i as int), (line as int), tokens_v(out@)),
        r matches Ok(t) ==> ends_in_eof(tokens_v(t@)),
        r matches Ok(t) ==> in_order(tokens_v(t@), cs@.len() as int),
{
    let ghost i_0 = i;
    let ghost line_0 = line;
    let ghost out_0 = out;
    let mut i: usize = i;
    let mut line: usize = line;
    let mut out: Vec<Token> = out;
    #[verifier::loop_isolation(false)]
    loop
        invariant
            lex_from_spec(cs@, (i_0 as int), (line_0 as int), tokens_v(out_0@)) == lex_from_spec(cs@, (i as int), (line as int), tokens_v(out@)),
            i <= cs.len(),
            in_order(tokens_v(out@), i as int),
        decreases cs.len() - i,
    {
        if i >= cs.len() {
            out.push(Token { kind: TokKind::Eof, line, start: i, end: i });
            return Ok(out);
        }
        match token_at(cs, i, line) {
            Err(e) => {
                return Err(e);
            },
            Ok((kind, end, next)) => {
                match kind {
                    Some(k) => {
                        out.push(Token { kind: k, line, start: i, end });
                    },
                    None => {},
                }
                i = end;
                line = next;
            },
        }
    }
}

/// The tokens of a source text, in the order in which they stand in it, the last of them
/// [`TokKind::Eof`].
pub fn lex(src: &str) -> (r: Result<Vec<Token>, LexError>)
    ensures
        (match r { Ok(y) => Ok(tokens_v(y@)), Err(y) => Err(y.v()) }) == lex_spec(src@),
        r matches Ok(t) ==> ends_in_eof(tokens_v(t@)),
        r matches Ok(t) ==> in_order(tokens_v(t@), src@.len() as int),
{
    let cs = chars_of(src);
    let toks: Vec<Token> = Vec::new();
    proof {
        assert(tokens_v(toks@) =~= Seq::empty());
    }
    lex_from(&cs, 0, 1, toks)
}

/// The tokens of a source text.
pub open spec fn lex_spec(src: Seq<char>) -> Result<Seq<TokenV>, LexErrorV> {
    lex_from_spec(src, 0, 1, Seq::empty())
}

/// What [`is_digit`] computes.
pub open spec fn is_digit_spec(c: char) -> bool
{
    ('0' <= c) && (c <= '9')
}

/// What [`is_alpha`] computes.
pub open spec fn is_alpha_spec(c: char) -> bool
{
    (('a' <= c) && (c <= 'z')) || (('A' <= c) && (c <= 'Z'))
}

/// What [`is_word`] computes.
pub open spec fn is_word_spec(c: char) -> bool
{
    is_alpha_spec(c) || is_digit_spec(c) || (c == '_')
}

/// What [`is_hex`] computes.
pub open spec fn is_hex_spec(c: char) -> bool
{
    is_digit_spec(c) || (('a' <= c) && (c <= 'f')) || (('A' <= c) && (c <= 'F'))
}

/// What [`word_end`] computes.
pub open spec fn word_end_spec(cs: Seq<char>, i: int) -> int
    decreases cs.len() - i,
{
    if (i < (cs.len())) && (is_word_spec(at_spec(cs, i, 0int))) {
        let i = i + 1;
        word_end_spec(cs, i)
    } else { i }
}

/// What [`digits_end`] computes.
pub open spec fn digits_end_spec(cs: Seq<char>, i: int) -> int
    decreases cs.len() - i,
{
    if (i < (cs.len())) && (is_digit_spec(at_spec(cs, i, 0int))) {
        let i = i + 1;
        digits_end_spec(cs, i)
    } else { i }
}

/// What [`hex_end`] computes.
pub open spec fn hex_end_spec(cs: Seq<char>, i: int) -> int
    decreases cs.len() - i,
{
    if (i < (cs.len())) && (is_hex_spec(at_spec(cs, i, 0int))) {
        let i = i + 1;
        hex_end_spec(cs, i)
    } else { i }
}

/// What [`line_end`] computes.
pub open spec fn line_end_spec(cs: Seq<char>, stop_at_comment: bool, i: int) -> int
    decreases cs.len() - i,
{
    if (i < (cs.len())) && (at_spec(cs, i, 0int) != '\n') && (!(stop_at_comment && (at_spec(cs, i, 0int) == '/') && (at_spec(cs, i, 1int) == '/'))) {
        let i = i + 1;
        line_end_spec(cs, stop_at_comment, i)
    } else { i }
}

/// What [`is_space`] computes.
pub open spec fn is_space_spec(c: char) -> bool
{
    (c == ' ') || (c == '\t') || (c == '\r')
}

/// What [`skip_blanks`] computes.
pub open spec fn skip_blanks_spec(cs: Seq<char>, i: int) -> int
    decreases cs.len() - i,
{
    if (i < (cs.len())) && (is_space_spec(at_spec(cs, i, 0int))) {
        let i = i + 1;
        skip_blanks_spec(cs, i)
    } else { i }
}

/// What [`trim_blanks`] computes.
pub open spec fn trim_blanks_spec(cs: Seq<char>, a: int, b: int) -> int
    decreases b - a,
{
    if (a < b) && (is_space_spec(at_spec(cs, b - 1, 0int))) {
        let b = b - 1;
        trim_blanks_spec(cs, a, b)
    } else { b }
}

/// What [`number_end`] computes.
pub open spec fn number_end_spec(cs: Seq<char>, i: int) -> (int, bool)
{
    if (at_spec(cs, i, 0int) == '0') && ((at_spec(cs, i, 1int) == 'x') || (at_spec(cs, i, 1int) == 'X')) { (hex_end_spec(cs, i + 2), false) } else {
        let j: int = digits_end_spec(cs, i);
        if (at_spec(cs, j, 0int) == '.') && (is_digit_spec(at_spec(cs, j, 1int))) {
            let k: int = digits_end_spec(cs, j + 1);
            (exponent_end_spec(cs, k), true)
        } else {
            let k: int = exponent_end_spec(cs, j);
            (k, k != j)
        }
    }
}

/// What [`exponent_end`] computes.
pub open spec fn exponent_end_spec(cs: Seq<char>, i: int) -> int
{
    if (at_spec(cs, i, 0int) == 'e') || (at_spec(cs, i, 0int) == 'E') {
        if is_digit_spec(at_spec(cs, i, 1int)) { digits_end_spec(cs, i + 1) } else {
            if ((at_spec(cs, i, 1int) == '+') || (at_spec(cs, i, 1int) == '-')) && (is_digit_spec(at_spec(cs, i, 2int))) { digits_end_spec(cs, i + 2) } else { i }
        }
    } else { i }
}

/// What [`string_end`] computes.
pub open spec fn string_end_spec(cs: Seq<char>, quote: char, i: int, line: int) -> Option<(int, int)>
    decreases cs.len() - i,
{
    if !(0 <= i < cs.len()) { None } else {
        let c = at_spec(cs, i, 0int);
        if c == quote { Some((i, line)) } else {
            let line = if c == '\n' {
                let line = inc_spec(line);
                line
            } else { line };
            if (c == '\\') && ((i + 1) < (cs.len())) {
                let line = if at_spec(cs, i, 1int) == '\n' {
                    let line = inc_spec(line);
                    line
                } else { line };
                let i = i + 2;
                string_end_spec(cs, quote, i, line)
            } else {
                let i = i + 1;
                string_end_spec(cs, quote, i, line)
            }
        }
    }
}

/// What [`regex_end`] computes.
pub open spec fn regex_end_spec(cs: Seq<char>, i: int) -> Option<int>
    decreases cs.len() - i,
{
    if !(0 <= i < cs.len()) || (at_spec(cs, i, 0int) == '\n') { None } else {
        if at_spec(cs, i, 0int) == '/' { Some(i) } else {
            if (at_spec(cs, i, 0int) == '\\') && ((i + 1) < (cs.len())) {
                let i = i + 2;
                regex_end_spec(cs, i)
            } else {
                let i = i + 1;
                regex_end_spec(cs, i)
            }
        }
    }
}

/// What [`comment_end`] computes.
pub open spec fn comment_end_spec(cs: Seq<char>, i: int, line: int) -> Option<(int, int)>
    decreases cs.len() - i,
{
    if !(0 <= i < cs.len()) { None } else {
        if (at_spec(cs, i, 0int) == '*') && (at_spec(cs, i, 1int) == '/') { Some((i + 2, line)) } else {
            let line = if at_spec(cs, i, 0int) == '\n' {
                let line = inc_spec(line);
                line
            } else { line };
            let i = i + 1;
            comment_end_spec(cs, i, line)
        }
    }
}

/// What [`sym_at`] computes.
pub open spec fn sym_at_spec(cs: Seq<char>, i: int) -> Option<(Sym, int)>
{
    let a = at_spec(cs, i, 0int);
    let b = at_spec(cs, i, 1int);
    let c = at_spec(cs, i, 2int);
    let d = at_spec(cs, i, 3int);
    if (a == '>') && (b == '>') && (c == '>') && (d == '=') { Some((Sym::UShrEq, 4int)) } else if (a == '.') && (b == '.') && (c == '.') { Some((Sym::DotDotDot, 3int)) } else if (a == '?') && (b == '?') && (c == '=') { Some((Sym::QuestionQuestionEq, 3int)) } else if (a == '<') && (b == '<') && (c == '=') { Some((Sym::ShlEq, 3int)) } else if (a == '>') && (b == '>') && (c == '=') { Some((Sym::ShrEq, 3int)) } else if (a == '>') && (b == '>') && (c == '>') { Some((Sym::UShr, 3int)) } else if (a == '?') && (b == '.') { Some((Sym::QuestionDot, 2int)) } else if (a == '?') && (b == '?') { Some((Sym::QuestionQuestion, 2int)) } else if (a == '-') && (b == '>') { Some((Sym::Arrow, 2int)) } else if (a == '=') && (b == '>') { Some((Sym::FatArrow, 2int)) } else if (a == '+') && (b == '=') { Some((Sym::PlusEq, 2int)) } else if (a == '-') && (b == '=') { Some((Sym::MinusEq, 2int)) } else if (a == '*') && (b == '=') { Some((Sym::StarEq, 2int)) } else if (a == '/') && (b == '=') { Some((Sym::SlashEq, 2int)) } else if (a == '%') && (b == '=') { Some((Sym::PercentEq, 2int)) } else if (a == '&') && (b == '=') { Some((Sym::AmpEq, 2int)) } else if (a == '|') && (b == '=') { Some((Sym::PipeEq, 2int)) } else if (a == '^') && (b == '=') { Some((Sym::CaretEq, 2int)) } else if (a == '&') && (b == '&') { Some((Sym::AmpAmp, 2int)) } else if (a == '|') && (b == '|') { Some((Sym::PipePipe, 2int)) } else if (a == '=') && (b == '=') { Some((Sym::Eq, 2int)) } else if (a == '!') && (b == '=') { Some((Sym::Ne, 2int)) } else if (a == '<') && (b == '=') { Some((Sym::Le, 2int)) } else if (a == '>') && (b == '=') { Some((Sym::Ge, 2int)) } else if (a == '<') && (b == '<') { Some((Sym::Shl, 2int)) } else if (a == '>') && (b == '>') { Some((Sym::Shr, 2int)) } else if (a == '+') && (b == '+') { Some((Sym::PlusPlus, 2int)) } else if (a == '-') && (b == '-') { Some((Sym::MinusMinus, 2int)) } else if a == '(' { Some((Sym::LParen, 1int)) } else if a == ')' { Some((Sym::RParen, 1int)) } else if a == '[' { Some((Sym::LBracket, 1int)) } else if a == ']' { Some((Sym::RBracket, 1int)) } else if a == '{' { Some((Sym::LBrace, 1int)) } else if a == '}' { Some((Sym::RBrace, 1int)) } else if a == ',' { Some((Sym::Comma, 1int)) } else if a == ';' { Some((Sym::Semi, 1int)) } else if a == ':' { Some((Sym::Colon, 1int)) } else if a == '.' { Some((Sym::Dot, 1int)) } else if a == '?' { Some((Sym::Question, 1int)) } else if a == '=' { Some((Sym::Assign, 1int)) } else if a == '+' { Some((Sym::Plus, 1int)) } else if a == '-' { Some((Sym::Minus, 1int)) } else if a == '*' { Some((Sym::Star, 1int)) } else if a == '/' { Some((Sym::Slash, 1int)) } else if a == '%' { Some((Sym::Percent, 1int)) } else if a == '&' { Some((Sym::Amp, 1int)) } else if a == '|' { Some((Sym::Pipe, 1int)) } else if a == '^' { Some((Sym::Caret, 1int)) } else if a == '~' { Some((Sym::Tilde, 1int)) } else if a == '!' { Some((Sym::Bang, 1int)) } else if a == '<' { Some((Sym::Lt, 1int)) } else if a == '>' { Some((Sym::Gt, 1int)) } else { None }
}

/// What [`word_token`] computes.
pub open spec fn word_token_spec(s: Seq<char>) -> TokKindV
{
    match kw_of_spec(s) {
        Some(k) => { TokKindV::Kw(k) },
        None => { TokKindV::Ident(s) },
    }
}

/// What [`directive`] computes.
pub open spec fn directive_spec(s: Seq<char>) -> Option<PpKind>
{
    if (s == "if"@) { Some(PpKind::If) } else if (s == "elseif"@) { Some(PpKind::ElseIf) } else if (s == "else"@) { Some(PpKind::Else) } else if (s == "end"@) { Some(PpKind::End) } else { None }
}

/// What [`has_condition`] computes.
pub open spec fn has_condition_spec(k: PpKind) -> bool
{
    match k {
        PpKind::If | PpKind::ElseIf => { true },
        _ => { false },
    }
}

/// What [`token_at`] computes.
pub open spec fn token_at_spec(cs: Seq<char>, i: int, line: int) -> Result<(Option<TokKindV>, int, int), LexErrorV>
{
    let c = at_spec(cs, i, 0int);
    let d = at_spec(cs, i, 1int);
    if c == '\n' { Ok((None, i + 1, inc_spec(line))) } else {
        if is_space_spec(c) { Ok((None, i + 1, line)) } else {
            if (c == '/') && (d == '/') { Ok((None, line_end_spec(cs, false, i + 1), line)) } else {
                if (c == '/') && (d == '*') {
                    match comment_end_spec(cs, i + 2, line) {
                        Some((e, l)) => { Ok((None, e, l)) },
                        None => { Err(LexErrorV { message: "unterminated block comment"@, line }) },
                    }
                } else {
                    if (c == '\'') || (c == '"') {
                        match string_end_spec(cs, c, i + 1, line) {
                            Some((e, l)) => { Ok((Some(TokKindV::Str { raw: cut_spec(cs, i + 1, e), interpolated: c == '\'' }), e + 1, l)) },
                            None => { Err(LexErrorV { message: "unterminated string literal"@, line }) },
                        }
                    } else {
                        if (c == '~') && (d == '/') {
                            match regex_end_spec(cs, i + 2) {
                                Some(e) => {
                                    let f: int = word_end_spec(cs, e + 1);
                                    Ok((Some(TokKindV::Regex { pattern: cut_spec(cs, i + 2, e), flags: cut_spec(cs, e + 1, f) }), f, line))
                                },
                                None => { Err(LexErrorV { message: "unterminated regular expression"@, line }) },
                            }
                        } else {
                            if is_digit_spec(c) {
                                let (e, float) = number_end_spec(cs, i);
                                let s = cut_spec(cs, i, e);
                                Ok((Some(if float { TokKindV::Float(s) } else { TokKindV::Int(s) }), e, line))
                            } else {
                                if is_alpha_spec(c) || (c == '_') || (c == '$') {
                                    let e: int = word_end_spec(cs, i + 1);
                                    Ok((Some(word_token_spec(cut_spec(cs, i, e))), e, line))
                                } else {
                                    if c == '@' {
                                        let a: int = if d == ':' { i + 2 } else { i + 1 };
                                        let e: int = word_end_spec(cs, a);
                                        if e == a { Err(LexErrorV { message: "expected a metadata name after `@`"@, line }) } else { Ok((Some(TokKindV::Meta(cut_spec(cs, a, e))), e, line)) }
                                    } else {
                                        if c == '#' {
                                            let e: int = word_end_spec(cs, i + 1);
                                            match directive_spec(cut_spec(cs, i + 1, e)) {
                                                Some(k) => {
                                                    if has_condition_spec(k) {
                                                        let f: int = line_end_spec(cs, true, e);
                                                        let a: int = skip_blanks_spec(cs, e);
                                                        let b: int = trim_blanks_spec(cs, a, f);
                                                        Ok((Some(TokKindV::Pp(k, cut_spec(cs, a, b))), f, line))
                                                    } else { Ok((Some(TokKindV::Pp(k, Seq::empty())), e, line)) }
                                                },
                                                None => { Err(LexErrorV { message: "unknown directive `#"@ + cut_spec(cs, i + 1, e) + "`"@, line }) },
                                            }
                                        } else {
                                            match sym_at_spec(cs, i) {
                                                Some((s, n)) => { Ok((Some(TokKindV::Sym(s)), i + n, line)) },
                                                None => { Err(LexErrorV { message: "unexpected character `"@ + (seq![c]) + "`"@, line }) },
                                            }
                                        }
                                    }
                                }
                            }
                        }
                    }
                }
            }
        }
    }
}

/// What [`lex_from`] computes.
pub open spec fn lex_from_spec(cs: Seq<char>, i: int, line: int, out: Seq<TokenV>) -> Result<Seq<TokenV>, LexErrorV>
    decreases cs.len() - i,
{
    if !(0 <= i < cs.len()) {
        let out = out.push(TokenV { kind: TokKindV::Eof, line, start: i, end: i });
        Ok(out)
    } else {
        match token_at_spec(cs, i, line) {
            Err(e) => { Err(e) },
            Ok((kind, end, next)) => {
                let out = match kind {
                    Some(k) => {
                        let out = out.push(TokenV { kind: k, line, start: i, end });
                        out
                    },
                    None => { out },
                };
                if !((i < end) && (end <= (cs.len()))) { arbitrary() } else {
                    let i = end;
                    let line = next;
                    lex_from_spec(cs, i, line, out)
                }
            },
        }
    }
}

} // verus!
