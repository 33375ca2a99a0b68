//! What the characters of a text are read as.

use vstd::prelude::*;

use crate::lexer::{LexErrorV, comment_end_spec, digits_end_spec, directive_spec, has_condition_spec, inc_spec, is_alpha_spec, is_digit_spec, is_hex_spec, is_word_spec, lex_from_spec, line_end_spec, string_end_spec, token_at_spec, word_end_spec};
use crate::token::{PpKind, TokKindV, TokenV, kw_of_spec};

verus! {

broadcast use {crate::token::group_token, crate::text::group_texts};

/// The characters of names and of numbers.
pub proof fn law_kinds_of_characters(c: char)
    ensures
        is_digit_spec(c) <==> '0' <= c <= '9',
        is_alpha_spec(c) <==> 'a' <= c <= 'z' || 'A' <= c <= 'Z',
        is_word_spec(c) <==> '0' <= c <= '9' || 'a' <= c <= 'z' || 'A' <= c <= 'Z' || c == '_',
        is_hex_spec(c) <==> '0' <= c <= '9' || 'a' <= c <= 'f' || 'A' <= c <= 'F',
{
}

proof fn word_runs(cs: Seq<char>, i: int, e: int)
    requires
        0 <= i <= e <= cs.len(),
        forall|k: int| i <= k < e ==> is_word_spec(#[trigger] cs[k]),
        e < cs.len() ==> !is_word_spec(cs[e]),
    ensures
        word_end_spec(cs, i) == e,
    decreases e - i,
{
    if i < e {
        assert(is_word_spec(cs[i]));
        word_runs(cs, i + 1, e);
    }
}

/// A word reaches as far as its characters do, and is a reserved word or a name.
pub proof fn law_word_token(cs: Seq<char>, i: int, e: int, line: int)
    requires
        0 <= i < e <= cs.len(),
        is_alpha_spec(cs[i]) || cs[i] == '_',
        forall|k: int| i < k < e ==> is_word_spec(#[trigger] cs[k]),
        e < cs.len() ==> !is_word_spec(cs[e]),
    ensures
        kw_of_spec(cs.subrange(i, e)) matches Some(k) ==> token_at_spec(cs, i, line) == Ok::<_, LexErrorV>((Some(TokKindV::Kw(k)), e, line)),
        kw_of_spec(cs.subrange(i, e)) is None ==> token_at_spec(cs, i, line) == Ok::<_, LexErrorV>((Some(TokKindV::Ident(cs.subrange(i, e))), e, line)),
{
    reveal(token_at_spec);
    word_runs(cs, i + 1, e);
}

proof fn digit_runs(cs: Seq<char>, i: int, e: int)
    requires
        0 <= i <= e <= cs.len(),
        forall|k: int| i <= k < e ==> is_digit_spec(#[trigger] cs[k]),
        e < cs.len() ==> !is_digit_spec(cs[e]),
    ensures
        digits_end_spec(cs, i) == e,
    decreases e - i,
{
    if i < e {
        assert(is_digit_spec(cs[i]));
        digit_runs(cs, i + 1, e);
    }
}

/// Digits alone are an integer of these digits.
pub proof fn law_integer_token(cs: Seq<char>, i: int, e: int, line: int)
    requires
        0 <= i < e <= cs.len(),
        forall|k: int| i <= k < e ==> is_digit_spec(#[trigger] cs[k]),
        e < cs.len() ==> !is_word_spec(cs[e]) && cs[e] != '.',
    ensures
        token_at_spec(cs, i, line) == Ok::<_, LexErrorV>((Some(TokKindV::Int(cs.subrange(i, e))), e, line)),
{
    reveal(token_at_spec);
    assert(is_digit_spec(cs[i]));
    if i + 1 < e {
        assert(is_digit_spec(cs[i + 1]));
    }
    digit_runs(cs, i, e);
}

/// Digits, a point and digits are a float of these characters.
pub proof fn law_float_token(cs: Seq<char>, i: int, m: int, e: int, line: int)
    requires
        0 <= i < m < e - 1,
        e <= cs.len(),
        forall|k: int| i <= k < m ==> is_digit_spec(#[trigger] cs[k]),
        cs[m] == '.',
        forall|k: int| m < k < e ==> is_digit_spec(#[trigger] cs[k]),
        e < cs.len() ==> !is_word_spec(cs[e]),
    ensures
        token_at_spec(cs, i, line) == Ok::<_, LexErrorV>((Some(TokKindV::Float(cs.subrange(i, e))), e, line)),
{
    reveal(token_at_spec);
    assert(is_digit_spec(cs[i]));
    if i + 1 < m {
        assert(is_digit_spec(cs[i + 1]));
    }
    assert(is_digit_spec(cs[m + 1]));
    digit_runs(cs, i, m);
    digit_runs(cs, m + 1, e);
}

proof fn body_runs(cs: Seq<char>, quote: char, i: int, e: int, line: int)
    requires
        0 <= i <= e < cs.len(),
        cs[e] == quote,
        forall|k: int| i <= k < e ==> (#[trigger] cs[k]) != quote && cs[k] != '\\' && cs[k] != '\n',
    ensures
        string_end_spec(cs, quote, i, line) == Some((e, line)),
    decreases e - i,
{
    if i < e {
        assert(cs[i] != quote);
        body_runs(cs, quote, i + 1, e, line);
    }
}

/// What stands between two quotes is a text, as it stands; single quotes make one in which
/// expressions count.
pub proof fn law_text_token(cs: Seq<char>, i: int, e: int, line: int)
    requires
        0 <= i < e < cs.len(),
        cs[i] == '\'' || cs[i] == '"',
        cs[e] == cs[i],
        forall|k: int| i < k < e ==> (#[trigger] cs[k]) != cs[i] && cs[k] != '\\' && cs[k] != '\n',
    ensures
        token_at_spec(cs, i, line) == Ok::<_, LexErrorV>(
            (Some(TokKindV::Str { raw: cs.subrange(i + 1, e), interpolated: cs[i] == '\'' }), e + 1, line),
        ),
{
    reveal(token_at_spec);
    body_runs(cs, cs[i], i + 1, e, line);
}

/// A backslash takes the character behind it along, so a quote behind one does not end a text.
/// A text that is not ended is an error.
pub proof fn law_escapes_in_texts(cs: Seq<char>, quote: char, i: int, line: int)
    requires
        quote != '\\',
    ensures
        0 <= i && i + 1 < cs.len() && cs[i] == '\\' && cs[i + 1] != '\n' ==> string_end_spec(cs, quote, i, line) == string_end_spec(
            cs,
            quote,
            i + 2,
            line,
        ),
        i >= cs.len() ==> string_end_spec(cs, quote, i, line) is None,
{
}

/// White space and comments are no tokens; a line feed starts a new line. A comment behind `//`
/// ends with its line.
pub proof fn law_white_space(cs: Seq<char>, i: int, line: int)
    requires
        0 <= i < cs.len(),
    ensures
        cs[i] == ' ' || cs[i] == '\t' || cs[i] == '\r' ==> token_at_spec(cs, i, line) == Ok::<_, LexErrorV>((None::<TokKindV>, i + 1, line)),
        cs[i] == '\n' ==> token_at_spec(cs, i, line) == Ok::<_, LexErrorV>((None::<TokKindV>, i + 1, inc_spec(line))),
        i + 1 < cs.len() && cs[i] == '/' && cs[i + 1] == '/' ==> token_at_spec(cs, i, line) == Ok::<_, LexErrorV>(
            (None::<TokKindV>, line_end_spec(cs, false, i + 1), line),
        ),
{
    reveal(token_at_spec);
}

/// The end of a line is where the next line feed stands, or the end of the text.
pub proof fn law_line_end(cs: Seq<char>, i: int, e: int)
    requires
        0 <= i <= e <= cs.len(),
        forall|k: int| i <= k < e ==> (#[trigger] cs[k]) != '\n',
        e < cs.len() ==> cs[e] == '\n',
    ensures
        line_end_spec(cs, false, i) == e,
    decreases e - i,
{
    if i < e {
        assert(cs[i] != '\n');
        law_line_end(cs, i + 1, e);
    }
}

/// A block comment ends behind the first `*/`.
pub proof fn law_comment_end(cs: Seq<char>, i: int, e: int, line: int)
    requires
        0 <= i <= e,
        e + 1 < cs.len(),
        cs[e] == '*' && cs[e + 1] == '/',
        forall|k: int| i <= k < e ==> !((#[trigger] cs[k]) == '*' && cs[k + 1] == '/') && cs[k] != '\n',
    ensures
        comment_end_spec(cs, i, line) == Some((e + 2, line)),
    decreases e - i,
{
    if i < e {
        assert(!(cs[i] == '*' && cs[i + 1] == '/'));
        law_comment_end(cs, i + 1, e, line);
    }
}

/// `@name` and `@:name` are the metadata of that name.
pub proof fn law_metadata_token(cs: Seq<char>, i: int, a: int, e: int, line: int)
    requires
        0 <= i < a < e <= cs.len(),
        cs[i] == '@',
        a == i + 1 || a == i + 2 && cs[i + 1] == ':',
        forall|k: int| a <= k < e ==> is_word_spec(#[trigger] cs[k]),
        e < cs.len() ==> !is_word_spec(cs[e]),
    ensures
        token_at_spec(cs, i, line) == Ok::<_, LexErrorV>((Some(TokKindV::Meta(cs.subrange(a, e))), e, line)),
{
    reveal(token_at_spec);
    assert(is_word_spec(cs[a]));
    word_runs(cs, a, e);
}

/// The directives by their words, and no others; `#if` and `#elseif` carry a condition.
pub proof fn law_directive_words(word: Seq<char>)
    ensures
        directive_spec("if"@) == Some(PpKind::If),
        directive_spec("elseif"@) == Some(PpKind::ElseIf),
        directive_spec("else"@) == Some(PpKind::Else),
        directive_spec("end"@) == Some(PpKind::End),
        directive_spec(word) is Some ==> word == "if"@ || word == "elseif"@ || word == "else"@ || word == "end"@,
        has_condition_spec(PpKind::If) && has_condition_spec(PpKind::ElseIf),
        !has_condition_spec(PpKind::Else) && !has_condition_spec(PpKind::End),
{
    reveal_strlit("if");
    reveal_strlit("elseif");
    reveal_strlit("else");
    reveal_strlit("end");
    assert("if"@.len() == 2 && "elseif"@.len() == 6 && "else"@.len() == 4 && "end"@.len() == 3);
}

/// The tokens of a text are those read one after the other; each has the line and the place it
/// was read at.
pub proof fn law_tokens_one_by_one(cs: Seq<char>, i: int, line: int, out: Seq<TokenV>, kind: Option<TokKindV>, end: int, next: int)
    requires
        0 <= i < end <= cs.len(),
        token_at_spec(cs, i, line) == Ok::<_, LexErrorV>((kind, end, next)),
    ensures
        kind is None ==> lex_from_spec(cs, i, line, out) == lex_from_spec(cs, end, next, out),
        kind matches Some(k) ==> lex_from_spec(cs, i, line, out) == lex_from_spec(cs, end, next, out.push(TokenV { kind: k, line, start: i, end })),
        lex_from_spec(cs, cs.len() as int, line, out) == Ok::<_, LexErrorV>(
            out.push(TokenV { kind: TokKindV::Eof, line, start: cs.len() as int, end: cs.len() as int }),
        ),
{
}

} // verus!
