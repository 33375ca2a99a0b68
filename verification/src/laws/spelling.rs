//! How tokens are spelled: what the lexer reads is what the generator writes.

use vstd::prelude::*;

use crate::ast::{BinOp, UnOp};
use crate::codegen::helpers::{binop_spec, is_arithmetic_op_spec, is_boolean_op_spec, unop_spec};
use crate::codegen::values::binding_spec;
use crate::lexer::{LexErrorV, at_spec, lex_from_spec, lex_spec, sym_at_spec, token_at_spec, word_token_spec};
use crate::model::ExprV;
use crate::parser::binary::{parse_unary_spec, peek_binop_spec, prec_of, prefix_op_spec};
use crate::parser::cursor::{Ctx, Pr, St, bump_spec, peek_spec};
use crate::parser::expr::assign_op_spec;
use crate::parser::postfix::parse_postfix_rest_spec;
use crate::token::{Kw, Sym, TokKindV, TokenV, kw_of_spec, kw_text_spec};

verus! {

broadcast use {crate::model::group_model, crate::token::group_token, crate::text::group_texts};

/// The characters a symbol is written with.
pub open spec fn spelled(s: Sym) -> Seq<char> {
    match s {
        Sym::LParen => seq!['('],
        Sym::RParen => seq![')'],
        Sym::LBracket => seq!['['],
        Sym::RBracket => seq![']'],
        Sym::LBrace => seq!['{'],
        Sym::RBrace => seq!['}'],
        Sym::Comma => seq![','],
        Sym::Semi => seq![';'],
        Sym::Colon => seq![':'],
        Sym::Dot => seq!['.'],
        Sym::QuestionDot => seq!['?', '.'],
        Sym::DotDotDot => seq!['.', '.', '.'],
        Sym::Question => seq!['?'],
        Sym::QuestionQuestion => seq!['?', '?'],
        Sym::QuestionQuestionEq => seq!['?', '?', '='],
        Sym::Arrow => seq!['-', '>'],
        Sym::FatArrow => seq!['=', '>'],
        Sym::Assign => seq!['='],
        Sym::PlusEq => seq!['+', '='],
        Sym::MinusEq => seq!['-', '='],
        Sym::StarEq => seq!['*', '='],
        Sym::SlashEq => seq!['/', '='],
        Sym::PercentEq => seq!['%', '='],
        Sym::AmpEq => seq!['&', '='],
        Sym::PipeEq => seq!['|', '='],
        Sym::CaretEq => seq!['^', '='],
        Sym::ShlEq => seq!['<', '<', '='],
        Sym::ShrEq => seq!['>', '>', '='],
        Sym::UShrEq => seq!['>', '>', '>', '='],
        Sym::Plus => seq!['+'],
        Sym::Minus => seq!['-'],
        Sym::Star => seq!['*'],
        Sym::Slash => seq!['/'],
        Sym::Percent => seq!['%'],
        Sym::Amp => seq!['&'],
        Sym::Pipe => seq!['|'],
        Sym::Caret => seq!['^'],
        Sym::Tilde => seq!['~'],
        Sym::Bang => seq!['!'],
        Sym::AmpAmp => seq!['&', '&'],
        Sym::PipePipe => seq!['|', '|'],
        Sym::Eq => seq!['=', '='],
        Sym::Ne => seq!['!', '='],
        Sym::Lt => seq!['<'],
        Sym::Gt => seq!['>'],
        Sym::Le => seq!['<', '='],
        Sym::Ge => seq!['>', '='],
        Sym::Shl => seq!['<', '<'],
        Sym::Shr => seq!['>', '>'],
        Sym::UShr => seq!['>', '>', '>'],
        Sym::PlusPlus => seq!['+', '+'],
        Sym::MinusMinus => seq!['-', '-'],
    }
}

/// Whether a symbol is written at a place of a text.
pub open spec fn written_at(cs: Seq<char>, i: int, s: Sym) -> bool {
    forall|k: int| 0 <= k < spelled(s).len() ==> #[trigger] at_spec(cs, i, k) == spelled(s)[k]
}

proof fn characters_of(cs: Seq<char>, i: int, s: Sym)
    ensures
        1 <= spelled(s).len() <= 4,
        written_at(cs, i, s) <==> {
            &&& at_spec(cs, i, 0) == spelled(s)[0]
            &&& spelled(s).len() > 1 ==> at_spec(cs, i, 1) == spelled(s)[1]
            &&& spelled(s).len() > 2 ==> at_spec(cs, i, 2) == spelled(s)[2]
            &&& spelled(s).len() > 3 ==> at_spec(cs, i, 3) == spelled(s)[3]
        },
{
    let w = written_at(cs, i, s);
    if w {
        assert(at_spec(cs, i, 0) == spelled(s)[0]);
        assert(spelled(s).len() > 1 ==> at_spec(cs, i, 1) == spelled(s)[1]);
        assert(spelled(s).len() > 2 ==> at_spec(cs, i, 2) == spelled(s)[2]);
        assert(spelled(s).len() > 3 ==> at_spec(cs, i, 3) == spelled(s)[3]);
    }
}

/// A symbol is read where it is written, and of those written at a place the longest.
pub proof fn law_longest_symbol_is_read(cs: Seq<char>, i: int, other: Sym)
    ensures
        sym_at_spec(cs, i) matches Some((s, n)) ==> written_at(cs, i, s) && n == spelled(s).len(),
        written_at(cs, i, other) ==> (sym_at_spec(cs, i) matches Some((s, n)) && spelled(other).len() <= n),
{
    characters_of(cs, i, other);
    match sym_at_spec(cs, i) {
        Some((s, n)) => {
            characters_of(cs, i, s);
        },
        None => {},
    }
}

proof fn symbol_alone(s: Sym)
    ensures
        sym_at_spec(spelled(s), 0) == Some((s, spelled(s).len() as int)),
{
    let cs = spelled(s);
    assert(at_spec(cs, 0, 0) == cs[0]);
    assert(cs.len() < 2 ==> at_spec(cs, 0, 1) == '\0');
    assert(cs.len() < 3 ==> at_spec(cs, 0, 2) == '\0');
    assert(cs.len() < 4 ==> at_spec(cs, 0, 3) == '\0');
    assert(cs.len() > 1 ==> at_spec(cs, 0, 1) == cs[1]);
    assert(cs.len() > 2 ==> at_spec(cs, 0, 2) == cs[2]);
    assert(cs.len() > 3 ==> at_spec(cs, 0, 3) == cs[3]);
}

/// No two symbols are written alike.
pub proof fn law_symbols_are_told_apart(a: Sym, b: Sym)
    requires
        spelled(a) == spelled(b),
    ensures
        a == b,
{
    symbol_alone(a);
    symbol_alone(b);
}

/// A text that is one symbol is one token.
pub proof fn law_symbol_is_a_token(s: Sym)
    ensures
        lex_spec(spelled(s)) matches Ok(toks) && toks.len() == 2 && toks[0].kind == TokKindV::Sym(s) && toks[1].kind is Eof,
{
    let cs = spelled(s);
    let n = cs.len() as int;
    symbol_alone(s);
    assert(at_spec(cs, 0, 0) == cs[0]);
    assert(at_spec(cs, 0, 1) == (if n > 1 { cs[1] } else { '\0' }));
    assert(token_at_spec(cs, 0, 1) == Ok::<(Option<TokKindV>, int, int), LexErrorV>((Some(TokKindV::Sym(s)), n, 1)));
    let one = Seq::<TokenV>::empty().push(TokenV { kind: TokKindV::Sym(s), line: 1, start: 0, end: n });
    assert(lex_from_spec(cs, n, 1, one) == Ok::<Seq<TokenV>, LexErrorV>(one.push(TokenV { kind: TokKindV::Eof, line: 1, start: n, end: n })));
    assert(lex_from_spec(cs, 0, 1, Seq::empty()) == lex_from_spec(cs, n, 1, one));
}

/// A binary operator is written in C++ as it was in the source; `>>>`, which C++ does not
/// have, is the one exception.
pub proof fn law_binary_operator_is_kept(s: Sym)
    ensures
        peek_binop_spec(TokKindV::Sym(s)) matches Some((op, _)) ==> {
            &&& op != BinOp::UShr ==> binop_spec(op) == spelled(s)
            &&& op == BinOp::UShr ==> spelled(s) == seq!['>', '>', '>']
        },
{
    reveal(binop_spec);
    spellings();
}

/// Every binary operator can be written, and different ones are written differently.
pub proof fn law_binary_operators_are_told_apart(a: BinOp, b: BinOp)
    ensures
        exists|s: Sym| #[trigger] peek_binop_spec(TokKindV::Sym(s)) matches Some((op, _)) && op == a,
        a != b && a != BinOp::UShr && b != BinOp::UShr ==> binop_spec(a) != binop_spec(b),
{
    reveal(binop_spec);
    spellings();
    let s = match a {
        BinOp::Add => Sym::Plus,
        BinOp::Sub => Sym::Minus,
        BinOp::Mul => Sym::Star,
        BinOp::Div => Sym::Slash,
        BinOp::Mod => Sym::Percent,
        BinOp::Eq => Sym::Eq,
        BinOp::Ne => Sym::Ne,
        BinOp::Lt => Sym::Lt,
        BinOp::Gt => Sym::Gt,
        BinOp::Le => Sym::Le,
        BinOp::Ge => Sym::Ge,
        BinOp::And => Sym::AmpAmp,
        BinOp::Or => Sym::PipePipe,
        BinOp::BitAnd => Sym::Amp,
        BinOp::BitOr => Sym::Pipe,
        BinOp::BitXor => Sym::Caret,
        BinOp::Shl => Sym::Shl,
        BinOp::Shr => Sym::Shr,
        BinOp::UShr => Sym::UShr,
    };
    assert(peek_binop_spec(TokKindV::Sym(s)) matches Some((op, _)) && op == a);
    let x = binop_spec(a);
    let y = binop_spec(b);
    if x == y {
        assert(x[0] == y[0] && x.len() == y.len());
        assert(x.len() == 2 ==> x[1] == y[1]);
    }
}

/// How tightly C++ binds an operator: a larger number binds more tightly. `>>>` stands for the
/// `>>` that it becomes.
pub open spec fn cpp_binds(s: Sym) -> int {
    match s {
        Sym::Star | Sym::Slash | Sym::Percent => 13,
        Sym::Plus | Sym::Minus => 12,
        Sym::Shl | Sym::Shr | Sym::UShr => 11,
        Sym::Lt | Sym::Gt | Sym::Le | Sym::Ge => 10,
        Sym::Eq | Sym::Ne => 9,
        Sym::Amp => 8,
        Sym::Caret => 7,
        Sym::Pipe => 6,
        Sym::AmpAmp => 5,
        _ => 4,
    }
}

/// Operators bind in the source as they do in C++, so that what is written without
/// parentheses groups alike in both.
pub proof fn law_operators_bind_as_in_cpp(a: Sym, b: Sym)
    ensures
        match (peek_binop_spec(TokKindV::Sym(a)), peek_binop_spec(TokKindV::Sym(b))) {
            (Some((x, m)), Some((y, n))) => {
                &&& m < n <==> cpp_binds(a) < cpp_binds(b)
                &&& prec_of(x) == m && binding_spec(x) == m
            },
            _ => true,
        },
{
    reveal(binding_spec);
}

/// A prefix operator is the one that was written, and is written so again.
pub proof fn law_prefix_operator_is_kept(s: Sym)
    ensures
        prefix_op_spec(TokKindV::Sym(s)) matches Some(op) ==> unop_spec(op) == spelled(s),
        prefix_op_spec(TokKindV::Sym(s)) is Some <==> exists|op: UnOp| #[trigger] unop_spec(op) == spelled(s),
{
    reveal(unop_spec);
    spellings();
    if exists|op: UnOp| #[trigger] unop_spec(op) == spelled(s) {
        let op = choose|op: UnOp| #[trigger] unop_spec(op) == spelled(s);
        let t = match op {
            UnOp::Neg => Sym::Minus,
            UnOp::Not => Sym::Bang,
            UnOp::BitNot => Sym::Tilde,
            UnOp::Incr => Sym::PlusPlus,
            UnOp::Decr => Sym::MinusMinus,
        };
        assert(spelled(t) =~= unop_spec(op));
        law_symbols_are_told_apart(s, t);
    }
}

/// Different prefix operators are written differently.
pub proof fn law_unary_operators_are_told_apart(a: UnOp, b: UnOp)
    requires
        unop_spec(a) == unop_spec(b),
    ensures
        a == b,
{
    reveal(unop_spec);
    spellings();
    let x = unop_spec(a);
    let y = unop_spec(b);
    assert(x[0] == y[0]);
    assert(x.len() == y.len());
    assert(seq!['-'].len() == 1 && seq!['-', '-'].len() == 2);
}

/// An expression that starts with a prefix operator is that operator on what follows it.
pub proof fn law_prefix_expression(c: Ctx, st: St, s: Sym, op: UnOp, operand: ExprV, after: St)
    requires
        peek_spec(c, st) == TokKindV::Sym(s),
        unop_spec(op) == spelled(s),
        parse_unary_spec(c, bump_spec(c, st)) == Pr::Done(operand, after),
        bump_spec(c, st).pos < after.pos < c.toks.len(),
    ensures
        parse_unary_spec(c, st) == Pr::Done(ExprV::Unary { op, expr: Box::new(operand), prefix: true }, after),
{
    law_prefix_operator_is_kept(s);
    law_unary_operators_are_told_apart(op, prefix_op_spec(TokKindV::Sym(s))->Some_0);
    reveal(parse_unary_spec);
}

/// An operator that assigns is written as the operator it applies, with `=` behind it; `=`
/// alone applies none.
pub proof fn law_assignment_operator_is_kept(s: Sym)
    ensures
        assign_op_spec(TokKindV::Sym(s)) matches Some(Some(op)) ==> {
            &&& op != BinOp::UShr ==> binop_spec(op) + seq!['='] == spelled(s)
            &&& op == BinOp::UShr ==> spelled(s) == seq!['>', '>', '>', '=']
            &&& is_arithmetic_op_spec(op) || !is_boolean_op_spec(op)
        },
        assign_op_spec(TokKindV::Sym(s)) == Some(None::<BinOp>) <==> spelled(s) == seq!['='],
{
    reveal(binop_spec);
    spellings();
    assert(seq!['='] =~= spelled(Sym::Assign));
    if spelled(s) == seq!['='] {
        law_symbols_are_told_apart(s, Sym::Assign);
    }
}

/// Every operator that does not compare or join truth values has one that assigns.
pub proof fn law_operators_assign(op: BinOp)
    ensures
        !is_boolean_op_spec(op) <==> exists|s: Sym| #[trigger] assign_op_spec(TokKindV::Sym(s)) == Some(Some(op)),
{
    let s = match op {
        BinOp::Add => Sym::PlusEq,
        BinOp::Sub => Sym::MinusEq,
        BinOp::Mul => Sym::StarEq,
        BinOp::Div => Sym::SlashEq,
        BinOp::Mod => Sym::PercentEq,
        BinOp::BitAnd => Sym::AmpEq,
        BinOp::BitOr => Sym::PipeEq,
        BinOp::BitXor => Sym::CaretEq,
        BinOp::Shl => Sym::ShlEq,
        BinOp::Shr => Sym::ShrEq,
        BinOp::UShr => Sym::UShrEq,
        _ => Sym::Assign,
    };
    if !is_boolean_op_spec(op) {
        assert(assign_op_spec(TokKindV::Sym(s)) == Some(Some(op)));
    }
}

/// `++` and `--` behind an operand change it, each with its own operator.
pub proof fn law_postfix_operator(c: Ctx, st: St, e: ExprV, s: Sym, op: UnOp)
    requires
        peek_spec(c, st) == TokKindV::Sym(s),
        unop_spec(op) == spelled(s),
        op == UnOp::Incr || op == UnOp::Decr,
    ensures
        parse_postfix_rest_spec(c, st, e) == parse_postfix_rest_spec(c, bump_spec(c, st), ExprV::Unary { op, expr: Box::new(e), prefix: false }),
{
    law_prefix_operator_is_kept(s);
    law_unary_operators_are_told_apart(op, prefix_op_spec(TokKindV::Sym(s))->Some_0);
    reveal(parse_postfix_rest_spec);
}

/// A reserved word is read where it is written, and nothing else is read as one.
pub proof fn law_reserved_words(word: Seq<char>, k: Kw)
    ensures
        kw_of_spec(word) == Some(k) <==> word == kw_text_spec(k),
        word_token_spec(word) == TokKindV::Kw(k) <==> word == kw_text_spec(k),
        kw_of_spec(word) is None ==> word_token_spec(word) == TokKindV::Ident(word),
{
    reveal(kw_of_spec);
    reveal(kw_text_spec);
    reserved_word(k);
}

proof fn reserved_word(k: Kw)
    ensures
        kw_of_spec(kw_text_spec(k)) == Some(k),
{
    reveal(kw_of_spec);
    reveal(kw_text_spec);
    letters();
}

/// The letters of the reserved words.
proof fn letters()
    ensures
        "package"@.len() == 7 && "package"@[0] == 'p' && "package"@[1] == 'a' && "package"@[2] == 'c' && "package"@[3] == 'k' && "package"@[4] == 'a' && "package"@[5] == 'g' && "package"@[6] == 'e',
        "import"@.len() == 6 && "import"@[0] == 'i' && "import"@[1] == 'm' && "import"@[2] == 'p' && "import"@[3] == 'o' && "import"@[4] == 'r' && "import"@[5] == 't',
        "using"@.len() == 5 && "using"@[0] == 'u' && "using"@[1] == 's' && "using"@[2] == 'i' && "using"@[3] == 'n' && "using"@[4] == 'g',
        "class"@.len() == 5 && "class"@[0] == 'c' && "class"@[1] == 'l' && "class"@[2] == 'a' && "class"@[3] == 's' && "class"@[4] == 's',
        "interface"@.len() == 9 && "interface"@[0] == 'i' && "interface"@[1] == 'n' && "interface"@[2] == 't' && "interface"@[3] == 'e' && "interface"@[4] == 'r' && "interface"@[5] == 'f' && "interface"@[6] == 'a' && "interface"@[7] == 'c' && "interface"@[8] == 'e',
        "enum"@.len() == 4 && "enum"@[0] == 'e' && "enum"@[1] == 'n' && "enum"@[2] == 'u' && "enum"@[3] == 'm',
        "abstract"@.len() == 8 && "abstract"@[0] == 'a' && "abstract"@[1] == 'b' && "abstract"@[2] == 's' && "abstract"@[3] == 't' && "abstract"@[4] == 'r' && "abstract"@[5] == 'a' && "abstract"@[6] == 'c' && "abstract"@[7] == 't',
        "typedef"@.len() == 7 && "typedef"@[0] == 't' && "typedef"@[1] == 'y' && "typedef"@[2] == 'p' && "typedef"@[3] == 'e' && "typedef"@[4] == 'd' && "typedef"@[5] == 'e' && "typedef"@[6] == 'f',
        "function"@.len() == 8 && "function"@[0] == 'f' && "function"@[1] == 'u' && "function"@[2] == 'n' && "function"@[3] == 'c' && "function"@[4] == 't' && "function"@[5] == 'i' && "function"@[6] == 'o' && "function"@[7] == 'n',
        "var"@.len() == 3 && "var"@[0] == 'v' && "var"@[1] == 'a' && "var"@[2] == 'r',
        "final"@.len() == 5 && "final"@[0] == 'f' && "final"@[1] == 'i' && "final"@[2] == 'n' && "final"@[3] == 'a' && "final"@[4] == 'l',
        "extern"@.len() == 6 && "extern"@[0] == 'e' && "extern"@[1] == 'x' && "extern"@[2] == 't' && "extern"@[3] == 'e' && "extern"@[4] == 'r' && "extern"@[5] == 'n',
        "inline"@.len() == 6 && "inline"@[0] == 'i' && "inline"@[1] == 'n' && "inline"@[2] == 'l' && "inline"@[3] == 'i' && "inline"@[4] == 'n' && "inline"@[5] == 'e',
        "static"@.len() == 6 && "static"@[0] == 's' && "static"@[1] == 't' && "static"@[2] == 'a' && "static"@[3] == 't' && "static"@[4] == 'i' && "static"@[5] == 'c',
        "override"@.len() == 8 && "override"@[0] == 'o' && "override"@[1] == 'v' && "override"@[2] == 'e' && "override"@[3] == 'r' && "override"@[4] == 'r' && "override"@[5] == 'i' && "override"@[6] == 'd' && "override"@[7] == 'e',
        "dynamic"@.len() == 7 && "dynamic"@[0] == 'd' && "dynamic"@[1] == 'y' && "dynamic"@[2] == 'n' && "dynamic"@[3] == 'a' && "dynamic"@[4] == 'm' && "dynamic"@[5] == 'i' && "dynamic"@[6] == 'c',
        "macro"@.len() == 5 && "macro"@[0] == 'm' && "macro"@[1] == 'a' && "macro"@[2] == 'c' && "macro"@[3] == 'r' && "macro"@[4] == 'o',
        "public"@.len() == 6 && "public"@[0] == 'p' && "public"@[1] == 'u' && "public"@[2] == 'b' && "public"@[3] == 'l' && "public"@[4] == 'i' && "public"@[5] == 'c',
        "private"@.len() == 7 && "private"@[0] == 'p' && "private"@[1] == 'r' && "private"@[2] == 'i' && "private"@[3] == 'v' && "private"@[4] == 'a' && "private"@[5] == 't' && "private"@[6] == 'e',
        "extends"@.len() == 7 && "extends"@[0] == 'e' && "extends"@[1] == 'x' && "extends"@[2] == 't' && "extends"@[3] == 'e' && "extends"@[4] == 'n' && "extends"@[5] == 'd' && "extends"@[6] == 's',
        "implements"@.len() == 10 && "implements"@[0] == 'i' && "implements"@[1] == 'm' && "implements"@[2] == 'p' && "implements"@[3] == 'l' && "implements"@[4] == 'e' && "implements"@[5] == 'm' && "implements"@[6] == 'e' && "implements"@[7] == 'n' && "implements"@[8] == 't' && "implements"@[9] == 's',
        "new"@.len() == 3 && "new"@[0] == 'n' && "new"@[1] == 'e' && "new"@[2] == 'w',
        "if"@.len() == 2 && "if"@[0] == 'i' && "if"@[1] == 'f',
        "else"@.len() == 4 && "else"@[0] == 'e' && "else"@[1] == 'l' && "else"@[2] == 's' && "else"@[3] == 'e',
        "for"@.len() == 3 && "for"@[0] == 'f' && "for"@[1] == 'o' && "for"@[2] == 'r',
        "while"@.len() == 5 && "while"@[0] == 'w' && "while"@[1] == 'h' && "while"@[2] == 'i' && "while"@[3] == 'l' && "while"@[4] == 'e',
        "do"@.len() == 2 && "do"@[0] == 'd' && "do"@[1] == 'o',
        "switch"@.len() == 6 && "switch"@[0] == 's' && "switch"@[1] == 'w' && "switch"@[2] == 'i' && "switch"@[3] == 't' && "switch"@[4] == 'c' && "switch"@[5] == 'h',
        "case"@.len() == 4 && "case"@[0] == 'c' && "case"@[1] == 'a' && "case"@[2] == 's' && "case"@[3] == 'e',
        "default"@.len() == 7 && "default"@[0] == 'd' && "default"@[1] == 'e' && "default"@[2] == 'f' && "default"@[3] == 'a' && "default"@[4] == 'u' && "default"@[5] == 'l' && "default"@[6] == 't',
        "return"@.len() == 6 && "return"@[0] == 'r' && "return"@[1] == 'e' && "return"@[2] == 't' && "return"@[3] == 'u' && "return"@[4] == 'r' && "return"@[5] == 'n',
        "break"@.len() == 5 && "break"@[0] == 'b' && "break"@[1] == 'r' && "break"@[2] == 'e' && "break"@[3] == 'a' && "break"@[4] == 'k',
        "continue"@.len() == 8 && "continue"@[0] == 'c' && "continue"@[1] == 'o' && "continue"@[2] == 'n' && "continue"@[3] == 't' && "continue"@[4] == 'i' && "continue"@[5] == 'n' && "continue"@[6] == 'u' && "continue"@[7] == 'e',
        "throw"@.len() == 5 && "throw"@[0] == 't' && "throw"@[1] == 'h' && "throw"@[2] == 'r' && "throw"@[3] == 'o' && "throw"@[4] == 'w',
        "try"@.len() == 3 && "try"@[0] == 't' && "try"@[1] == 'r' && "try"@[2] == 'y',
        "catch"@.len() == 5 && "catch"@[0] == 'c' && "catch"@[1] == 'a' && "catch"@[2] == 't' && "catch"@[3] == 'c' && "catch"@[4] == 'h',
        "in"@.len() == 2 && "in"@[0] == 'i' && "in"@[1] == 'n',
        "untyped"@.len() == 7 && "untyped"@[0] == 'u' && "untyped"@[1] == 'n' && "untyped"@[2] == 't' && "untyped"@[3] == 'y' && "untyped"@[4] == 'p' && "untyped"@[5] == 'e' && "untyped"@[6] == 'd',
        "cast"@.len() == 4 && "cast"@[0] == 'c' && "cast"@[1] == 'a' && "cast"@[2] == 's' && "cast"@[3] == 't',
        "true"@.len() == 4 && "true"@[0] == 't' && "true"@[1] == 'r' && "true"@[2] == 'u' && "true"@[3] == 'e',
        "false"@.len() == 5 && "false"@[0] == 'f' && "false"@[1] == 'a' && "false"@[2] == 'l' && "false"@[3] == 's' && "false"@[4] == 'e',
        "null"@.len() == 4 && "null"@[0] == 'n' && "null"@[1] == 'u' && "null"@[2] == 'l' && "null"@[3] == 'l',
        "this"@.len() == 4 && "this"@[0] == 't' && "this"@[1] == 'h' && "this"@[2] == 'i' && "this"@[3] == 's',
        "super"@.len() == 5 && "super"@[0] == 's' && "super"@[1] == 'u' && "super"@[2] == 'p' && "super"@[3] == 'e' && "super"@[4] == 'r',
{
    reveal_strlit("package");
    reveal_strlit("import");
    reveal_strlit("using");
    reveal_strlit("class");
    reveal_strlit("interface");
    reveal_strlit("enum");
    reveal_strlit("abstract");
    reveal_strlit("typedef");
    reveal_strlit("function");
    reveal_strlit("var");
    reveal_strlit("final");
    reveal_strlit("extern");
    reveal_strlit("inline");
    reveal_strlit("static");
    reveal_strlit("override");
    reveal_strlit("dynamic");
    reveal_strlit("macro");
    reveal_strlit("public");
    reveal_strlit("private");
    reveal_strlit("extends");
    reveal_strlit("implements");
    reveal_strlit("new");
    reveal_strlit("if");
    reveal_strlit("else");
    reveal_strlit("for");
    reveal_strlit("while");
    reveal_strlit("do");
    reveal_strlit("switch");
    reveal_strlit("case");
    reveal_strlit("default");
    reveal_strlit("return");
    reveal_strlit("break");
    reveal_strlit("continue");
    reveal_strlit("throw");
    reveal_strlit("try");
    reveal_strlit("catch");
    reveal_strlit("in");
    reveal_strlit("untyped");
    reveal_strlit("cast");
    reveal_strlit("true");
    reveal_strlit("false");
    reveal_strlit("null");
    reveal_strlit("this");
    reveal_strlit("super");
}

/// The characters of the operators.
proof fn spellings()
    ensures
        "+"@ == seq!['+'],
        "-"@ == seq!['-'],
        "*"@ == seq!['*'],
        "/"@ == seq!['/'],
        "%"@ == seq!['%'],
        "=="@ == seq!['=', '='],
        "!="@ == seq!['!', '='],
        "<"@ == seq!['<'],
        ">"@ == seq!['>'],
        "<="@ == seq!['<', '='],
        ">="@ == seq!['>', '='],
        "&&"@ == seq!['&', '&'],
        "||"@ == seq!['|', '|'],
        "&"@ == seq!['&'],
        "|"@ == seq!['|'],
        "^"@ == seq!['^'],
        "<<"@ == seq!['<', '<'],
        ">>"@ == seq!['>', '>'],
        "!"@ == seq!['!'],
        "~"@ == seq!['~'],
        "++"@ == seq!['+', '+'],
        "--"@ == seq!['-', '-'],
{
    reveal_strlit("+");
    assert("+"@ =~= seq!['+']);
    reveal_strlit("-");
    assert("-"@ =~= seq!['-']);
    reveal_strlit("*");
    assert("*"@ =~= seq!['*']);
    reveal_strlit("/");
    assert("/"@ =~= seq!['/']);
    reveal_strlit("%");
    assert("%"@ =~= seq!['%']);
    reveal_strlit("==");
    assert("=="@ =~= seq!['=', '=']);
    reveal_strlit("!=");
    assert("!="@ =~= seq!['!', '=']);
    reveal_strlit("<");
    assert("<"@ =~= seq!['<']);
    reveal_strlit(">");
    assert(">"@ =~= seq!['>']);
    reveal_strlit("<=");
    assert("<="@ =~= seq!['<', '=']);
    reveal_strlit(">=");
    assert(">="@ =~= seq!['>', '=']);
    reveal_strlit("&&");
    assert("&&"@ =~= seq!['&', '&']);
    reveal_strlit("||");
    assert("||"@ =~= seq!['|', '|']);
    reveal_strlit("&");
    assert("&"@ =~= seq!['&']);
    reveal_strlit("|");
    assert("|"@ =~= seq!['|']);
    reveal_strlit("^");
    assert("^"@ =~= seq!['^']);
    reveal_strlit("<<");
    assert("<<"@ =~= seq!['<', '<']);
    reveal_strlit(">>");
    assert(">>"@ =~= seq!['>', '>']);
    reveal_strlit("!");
    assert("!"@ =~= seq!['!']);
    reveal_strlit("~");
    assert("~"@ =~= seq!['~']);
    reveal_strlit("++");
    assert("++"@ =~= seq!['+', '+']);
    reveal_strlit("--");
    assert("--"@ =~= seq!['-', '-']);
}

} // verus!
