//! Tokens of the Haxe subset.

use vstd::prelude::*;

use crate::ast::{Case, Catch, Class, Enum, Function, Import, Interface, Meta, Typedef, Using};
use crate::text::{cat3, cat5, same};

verus! {

broadcast use {crate::text::group_texts};

/// Reserved words. `is`, `as`, `get`, `set`, `never`, `from` and `to` are not among
/// them: those are identifiers with a meaning in some positions only.
#[derive(Debug, Clone, Copy, PartialEq, Eq, Structural)]
pub enum Kw {
    Package,
    Import,
    Using,
    Class,
    Interface,
    Enum,
    Abstract,
    Typedef,
    Function,
    Var,
    Final,
    Extern,
    Inline,
    Static,
    Override,
    Dynamic,
    Macro,
    Public,
    Private,
    Extends,
    Implements,
    New,
    If,
    Else,
    For,
    While,
    Do,
    Switch,
    Case,
    Default,
    Return,
    Break,
    Continue,
    Throw,
    Try,
    Catch,
    In,
    Untyped,
    Cast,
    True,
    False,
    Null,
    This,
    Super,
}

/// Operators and punctuation.
#[derive(Debug, Clone, Copy, PartialEq, Eq, Structural)]
pub enum Sym {
    /// `(`
    LParen,
    /// `)`
    RParen,
    /// `[`
    LBracket,
    /// `]`
    RBracket,
    /// `{`
    LBrace,
    /// `}`
    RBrace,
    /// `,`
    Comma,
    /// `;`
    Semi,
    /// `:`
    Colon,
    /// `.`
    Dot,
    /// `?.`
    QuestionDot,
    /// `...`
    DotDotDot,
    /// `?`
    Question,
    /// `??`
    QuestionQuestion,
    /// `??=`
    QuestionQuestionEq,
    /// `->`
    Arrow,
    /// `=>`
    FatArrow,
    /// `=`
    Assign,
    /// `+=`
    PlusEq,
    /// `-=`
    MinusEq,
    /// `*=`
    StarEq,
    /// `/=`
    SlashEq,
    /// `%=`
    PercentEq,
    /// `&=`
    AmpEq,
    /// `|=`
    PipeEq,
    /// `^=`
    CaretEq,
    /// `<<=`
    ShlEq,
    /// `>>=`
    ShrEq,
    /// `>>>=`
    UShrEq,
    /// `+`
    Plus,
    /// `-`
    Minus,
    /// `*`
    Star,
    /// `/`
    Slash,
    /// `%`
    Percent,
    /// `&`
    Amp,
    /// `|`
    Pipe,
    /// `^`
    Caret,
    /// `~`
    Tilde,
    /// `!`
    Bang,
    /// `&&`
    AmpAmp,
    /// `||`
    PipePipe,
    /// `==`
    Eq,
    /// `!=`
    Ne,
    /// `<`
    Lt,
    /// `>`
    Gt,
    /// `<=`
    Le,
    /// `>=`
    Ge,
    /// `<<`
    Shl,
    /// `>>`
    Shr,
    /// `>>>`
    UShr,
    /// `++`
    PlusPlus,
    /// `--`
    MinusMinus,
}

/// The conditional-compilation directives.
#[derive(Debug, Clone, Copy, PartialEq, Eq, Structural)]
pub enum PpKind {
    /// `#if`
    If,
    /// `#elseif`
    ElseIf,
    /// `#else`
    Else,
    /// `#end`
    End,
}

/// What a token is.
#[derive(Debug, PartialEq)]
#[allow(inconsistent_fields)]
pub enum TokKind {
    Ident(String),
    Int(String),
    Float(String),
    /// A string literal. `raw` is the text between the quotes, escapes not interpreted;
    /// a single-quoted literal is the interpolated kind.
    Str { raw: String, interpolated: bool },
    /// `~/pattern/flags`
    Regex { pattern: String, flags: String },
    Kw(Kw),
    Sym(Sym),
    /// `@:name` or `@name`
    Meta(String),
    /// A directive with the text of its condition (empty for `#else` and `#end`).
    Pp(PpKind, String),
    Eof,
}

/// A token with its line (1-based) and the characters it spans in the source.
#[derive(Debug, PartialEq)]
pub struct Token {
    pub kind: TokKind,
    pub line: usize,
    pub start: usize,
    pub end: usize,
}

/// Mathematical model of [`TokKind`].
#[allow(inconsistent_fields)]
pub enum TokKindV {
    Ident(Seq<char>),
    Int(Seq<char>),
    Float(Seq<char>),
    Str { raw: Seq<char>, interpolated: bool },
    Regex { pattern: Seq<char>, flags: Seq<char> },
    Kw(Kw),
    Sym(Sym),
    Meta(Seq<char>),
    Pp(PpKind, Seq<char>),
    Eof,
}

/// Mathematical model of [`Token`].
pub struct TokenV {
    pub kind: TokKindV,
    pub line: int,
    pub start: int,
    pub end: int,
}

impl TokKind {
    /// The value with every string and list seen as a sequence.
    pub open spec fn v(self) -> TokKindV
    {
        match self {
            TokKind::Ident(a) => TokKindV::Ident(a@),
            TokKind::Int(a) => TokKindV::Int(a@),
            TokKind::Float(a) => TokKindV::Float(a@),
            TokKind::Str { raw, interpolated } => TokKindV::Str {
                raw: raw@,
                interpolated: interpolated,
            },
            TokKind::Regex { pattern, flags } => TokKindV::Regex {
                pattern: pattern@,
                flags: flags@,
            },
            TokKind::Kw(a) => TokKindV::Kw(a),
            TokKind::Sym(a) => TokKindV::Sym(a),
            TokKind::Meta(a) => TokKindV::Meta(a@),
            TokKind::Pp(a, b) => TokKindV::Pp(a, b@),
            TokKind::Eof => TokKindV::Eof,
        }
    }
}

impl Token {
    /// The value with every string and list seen as a sequence.
    pub open spec fn v(self) -> TokenV
    {
        TokenV {
            kind: self.kind.v(),
            line: self.line as int,
            start: self.start as int,
            end: self.end as int,
        }
    }
}

/// The models of a list, element by element.
#[verifier::opaque]
pub open spec fn tokens_v(s: Seq<Token>) -> Seq<TokenV> {
    Seq::new(s.len(), |i: int| s[i].v())
}

/// A list and its model are equally long.
pub broadcast proof fn tokens_v_len(s: Seq<Token>)
    ensures
        #[trigger] tokens_v(s).len() == s.len(),
{
    reveal(tokens_v);
}

/// The model of a list holds the models of its elements.
pub broadcast proof fn tokens_v_index(s: Seq<Token>, i: int)
    requires
        0 <= i < s.len(),
    ensures
        #[trigger] tokens_v(s)[i] == s[i].v(),
{
    reveal(tokens_v);
}

/// Appending to a list appends to its model.
pub broadcast proof fn tokens_v_push(s: Seq<Token>, x: Token)
    ensures
        #[trigger] tokens_v(s.push(x)) == tokens_v(s).push(x.v()),
{
    reveal(tokens_v);
    assert(tokens_v(s.push(x)) =~= tokens_v(s).push(x.v()));
}

/// An empty list has an empty model.
pub broadcast proof fn tokens_v_empty()
    ensures
        #[trigger] tokens_v(Seq::<Token>::empty()) == Seq::<TokenV>::empty(),
{
    reveal(tokens_v);
    assert(tokens_v(Seq::<Token>::empty()) =~= Seq::<TokenV>::empty());
}

/// The model of two lists put together.
pub broadcast proof fn tokens_v_add(a: Seq<Token>, b: Seq<Token>)
    ensures
        #[trigger] tokens_v(a + b) == tokens_v(a) + tokens_v(b),
{
    reveal(tokens_v);
    assert(tokens_v(a + b) =~= tokens_v(a) + tokens_v(b));
}

/// How models follow what they are models of.
pub broadcast group group_token {
    tokens_v_len,
    tokens_v_index,
    tokens_v_push,
    tokens_v_empty,
    tokens_v_add,
}

impl TokKind {
    /// A copy with the same model.
    pub fn dup(&self) -> (r: TokKind)
        ensures
            r.v() == self.v(),
    {
        match self {
            TokKind::Ident(a) => TokKind::Ident(a.clone()),
            TokKind::Int(a) => TokKind::Int(a.clone()),
            TokKind::Float(a) => TokKind::Float(a.clone()),
            TokKind::Str { raw, interpolated } => TokKind::Str {
                raw: raw.clone(),
                interpolated: *interpolated,
            },
            TokKind::Regex { pattern, flags } => TokKind::Regex {
                pattern: pattern.clone(),
                flags: flags.clone(),
            },
            TokKind::Kw(a) => TokKind::Kw(*a),
            TokKind::Sym(a) => TokKind::Sym(*a),
            TokKind::Meta(a) => TokKind::Meta(a.clone()),
            TokKind::Pp(a, b) => TokKind::Pp(*a, b.clone()),
            TokKind::Eof => TokKind::Eof,
        }
    }
}

impl Clone for TokKind {
    fn clone(&self) -> (r: TokKind)
        ensures
            r.v() == self.v(),
    {
        self.dup()
    }
}

/// The reserved word a text spells, if any.
pub fn kw_of(s: &str) -> (r: Option<Kw>)
    ensures
        r == kw_of_spec(s@),
{
    proof {
        reveal(kw_of_spec);
    }
    if same(s, "package") {
        Some(Kw::Package)
    } else if same(s, "import") {
        Some(Kw::Import)
    } else if same(s, "using") {
        Some(Kw::Using)
    } else if same(s, "class") {
        Some(Kw::Class)
    } else if same(s, "interface") {
        Some(Kw::Interface)
    } else if same(s, "enum") {
        Some(Kw::Enum)
    } else if same(s, "abstract") {
        Some(Kw::Abstract)
    } else if same(s, "typedef") {
        Some(Kw::Typedef)
    } else if same(s, "function") {
        Some(Kw::Function)
    } else if same(s, "var") {
        Some(Kw::Var)
    } else if same(s, "final") {
        Some(Kw::Final)
    } else if same(s, "extern") {
        Some(Kw::Extern)
    } else if same(s, "inline") {
        Some(Kw::Inline)
    } else if same(s, "static") {
        Some(Kw::Static)
    } else if same(s, "override") {
        Some(Kw::Override)
    } else if same(s, "dynamic") {
        Some(Kw::Dynamic)
    } else if same(s, "macro") {
        Some(Kw::Macro)
    } else if same(s, "public") {
        Some(Kw::Public)
    } else if same(s, "private") {
        Some(Kw::Private)
    } else if same(s, "extends") {
        Some(Kw::Extends)
    } else if same(s, "implements") {
        Some(Kw::Implements)
    } else if same(s, "new") {
        Some(Kw::New)
    } else if same(s, "if") {
        Some(Kw::If)
    } else if same(s, "else") {
        Some(Kw::Else)
    } else if same(s, "for") {
        Some(Kw::For)
    } else if same(s, "while") {
        Some(Kw::While)
    } else if same(s, "do") {
        Some(Kw::Do)
    } else if same(s, "switch") {
        Some(Kw::Switch)
    } else if same(s, "case") {
        Some(Kw::Case)
    } else if same(s, "default") {
        Some(Kw::Default)
    } else if same(s, "return") {
        Some(Kw::Return)
    } else if same(s, "break") {
        Some(Kw::Break)
    } else if same(s, "continue") {
        Some(Kw::Continue)
    } else if same(s, "throw") {
        Some(Kw::Throw)
    } else if same(s, "try") {
        Some(Kw::Try)
    } else if same(s, "catch") {
        Some(Kw::Catch)
    } else if same(s, "in") {
        Some(Kw::In)
    } else if same(s, "untyped") {
        Some(Kw::Untyped)
    } else if same(s, "cast") {
        Some(Kw::Cast)
    } else if same(s, "true") {
        Some(Kw::True)
    } else if same(s, "false") {
        Some(Kw::False)
    } else if same(s, "null") {
        Some(Kw::Null)
    } else if same(s, "this") {
        Some(Kw::This)
    } else if same(s, "super") {
        Some(Kw::Super)
    } else {
        None
    }
}

/// How a reserved word is spelled.
pub fn kw_text(k: Kw) -> (r: String)
    ensures
        r@ == kw_text_spec(k),
{
    proof {
        reveal(kw_text_spec);
    }
    match k {
        Kw::Package => "package".to_owned(),
        Kw::Import => "import".to_owned(),
        Kw::Using => "using".to_owned(),
        Kw::Class => "class".to_owned(),
        Kw::Interface => "interface".to_owned(),
        Kw::Enum => "enum".to_owned(),
        Kw::Abstract => "abstract".to_owned(),
        Kw::Typedef => "typedef".to_owned(),
        Kw::Function => "function".to_owned(),
        Kw::Var => "var".to_owned(),
        Kw::Final => "final".to_owned(),
        Kw::Extern => "extern".to_owned(),
        Kw::Inline => "inline".to_owned(),
        Kw::Static => "static".to_owned(),
        Kw::Override => "override".to_owned(),
        Kw::Dynamic => "dynamic".to_owned(),
        Kw::Macro => "macro".to_owned(),
        Kw::Public => "public".to_owned(),
        Kw::Private => "private".to_owned(),
        Kw::Extends => "extends".to_owned(),
        Kw::Implements => "implements".to_owned(),
        Kw::New => "new".to_owned(),
        Kw::If => "if".to_owned(),
        Kw::Else => "else".to_owned(),
        Kw::For => "for".to_owned(),
        Kw::While => "while".to_owned(),
        Kw::Do => "do".to_owned(),
        Kw::Switch => "switch".to_owned(),
        Kw::Case => "case".to_owned(),
        Kw::Default => "default".to_owned(),
        Kw::Return => "return".to_owned(),
        Kw::Break => "break".to_owned(),
        Kw::Continue => "continue".to_owned(),
        Kw::Throw => "throw".to_owned(),
        Kw::Try => "try".to_owned(),
        Kw::Catch => "catch".to_owned(),
        Kw::In => "in".to_owned(),
        Kw::Untyped => "untyped".to_owned(),
        Kw::Cast => "cast".to_owned(),
        Kw::True => "true".to_owned(),
        Kw::False => "false".to_owned(),
        Kw::Null => "null".to_owned(),
        Kw::This => "this".to_owned(),
        Kw::Super => "super".to_owned(),
    }
}

/// The name of a reserved word, as messages show it.
pub fn kw_name(k: Kw) -> (r: String)
    ensures
        r@ == kw_name_spec(k),
{
    proof {
        reveal(kw_name_spec);
    }
    match k {
        Kw::Package => "Package".to_owned(),
        Kw::Import => "Import".to_owned(),
        Kw::Using => "Using".to_owned(),
        Kw::Class => "Class".to_owned(),
        Kw::Interface => "Interface".to_owned(),
        Kw::Enum => "Enum".to_owned(),
        Kw::Abstract => "Abstract".to_owned(),
        Kw::Typedef => "Typedef".to_owned(),
        Kw::Function => "Function".to_owned(),
        Kw::Var => "Var".to_owned(),
        Kw::Final => "Final".to_owned(),
        Kw::Extern => "Extern".to_owned(),
        Kw::Inline => "Inline".to_owned(),
        Kw::Static => "Static".to_owned(),
        Kw::Override => "Override".to_owned(),
        Kw::Dynamic => "Dynamic".to_owned(),
        Kw::Macro => "Macro".to_owned(),
        Kw::Public => "Public".to_owned(),
        Kw::Private => "Private".to_owned(),
        Kw::Extends => "Extends".to_owned(),
        Kw::Implements => "Implements".to_owned(),
        Kw::New => "New".to_owned(),
        Kw::If => "If".to_owned(),
        Kw::Else => "Else".to_owned(),
        Kw::For => "For".to_owned(),
        Kw::While => "While".to_owned(),
        Kw::Do => "Do".to_owned(),
        Kw::Switch => "Switch".to_owned(),
        Kw::Case => "Case".to_owned(),
        Kw::Default => "Default".to_owned(),
        Kw::Return => "Return".to_owned(),
        Kw::Break => "Break".to_owned(),
        Kw::Continue => "Continue".to_owned(),
        Kw::Throw => "Throw".to_owned(),
        Kw::Try => "Try".to_owned(),
        Kw::Catch => "Catch".to_owned(),
        Kw::In => "In".to_owned(),
        Kw::Untyped => "Untyped".to_owned(),
        Kw::Cast => "Cast".to_owned(),
        Kw::True => "True".to_owned(),
        Kw::False => "False".to_owned(),
        Kw::Null => "Null".to_owned(),
        Kw::This => "This".to_owned(),
        Kw::Super => "Super".to_owned(),
    }
}

/// The name of a symbol, as messages show it.
pub fn sym_name(s: Sym) -> (r: String)
    ensures
        r@ == sym_name_spec(s),
{
    proof {
        reveal(sym_name_spec);
    }
    match s {
        Sym::LParen => "LParen".to_owned(),
        Sym::RParen => "RParen".to_owned(),
        Sym::LBracket => "LBracket".to_owned(),
        Sym::RBracket => "RBracket".to_owned(),
        Sym::LBrace => "LBrace".to_owned(),
        Sym::RBrace => "RBrace".to_owned(),
        Sym::Comma => "Comma".to_owned(),
        Sym::Semi => "Semi".to_owned(),
        Sym::Colon => "Colon".to_owned(),
        Sym::Dot => "Dot".to_owned(),
        Sym::QuestionDot => "QuestionDot".to_owned(),
        Sym::DotDotDot => "DotDotDot".to_owned(),
        Sym::Question => "Question".to_owned(),
        Sym::QuestionQuestion => "QuestionQuestion".to_owned(),
        Sym::QuestionQuestionEq => "QuestionQuestionEq".to_owned(),
        Sym::Arrow => "Arrow".to_owned(),
        Sym::FatArrow => "FatArrow".to_owned(),
        Sym::Assign => "Assign".to_owned(),
        Sym::PlusEq => "PlusEq".to_owned(),
        Sym::MinusEq => "MinusEq".to_owned(),
        Sym::StarEq => "StarEq".to_owned(),
        Sym::SlashEq => "SlashEq".to_owned(),
        Sym::PercentEq => "PercentEq".to_owned(),
        Sym::AmpEq => "AmpEq".to_owned(),
        Sym::PipeEq => "PipeEq".to_owned(),
        Sym::CaretEq => "CaretEq".to_owned(),
        Sym::ShlEq => "ShlEq".to_owned(),
        Sym::ShrEq => "ShrEq".to_owned(),
        Sym::UShrEq => "UShrEq".to_owned(),
        Sym::Plus => "Plus".to_owned(),
        Sym::Minus => "Minus".to_owned(),
        Sym::Star => "Star".to_owned(),
        Sym::Slash => "Slash".to_owned(),
        Sym::Percent => "Percent".to_owned(),
        Sym::Amp => "Amp".to_owned(),
        Sym::Pipe => "Pipe".to_owned(),
        Sym::Caret => "Caret".to_owned(),
        Sym::Tilde => "Tilde".to_owned(),
        Sym::Bang => "Bang".to_owned(),
        Sym::AmpAmp => "AmpAmp".to_owned(),
        Sym::PipePipe => "PipePipe".to_owned(),
        Sym::Eq => "Eq".to_owned(),
        Sym::Ne => "Ne".to_owned(),
        Sym::Lt => "Lt".to_owned(),
        Sym::Gt => "Gt".to_owned(),
        Sym::Le => "Le".to_owned(),
        Sym::Ge => "Ge".to_owned(),
        Sym::Shl => "Shl".to_owned(),
        Sym::Shr => "Shr".to_owned(),
        Sym::UShr => "UShr".to_owned(),
        Sym::PlusPlus => "PlusPlus".to_owned(),
        Sym::MinusMinus => "MinusMinus".to_owned(),
    }
}

/// The name of a directive, as messages show it.
pub fn pp_name(k: PpKind) -> (r: String)
    ensures
        r@ == pp_name_spec(k),
{
    proof {
        reveal(pp_name_spec);
    }
    match k {
        PpKind::If => "If".to_owned(),
        PpKind::ElseIf => "ElseIf".to_owned(),
        PpKind::Else => "Else".to_owned(),
        PpKind::End => "End".to_owned(),
    }
}

/// The text in double quotes with its special characters escaped, as the standard
/// library's `Debug` formatting of a string writes it.
pub uninterp spec fn quoted(s: Seq<char>) -> Seq<char>;

/// `Debug` formatting of a `str` (`{:?}`): a function of the text alone, named
/// [`quoted`]. Which characters it escapes is not stated.
#[verifier::external_body]
fn quote(s: &str) -> (r: String)
    ensures
        r@ == quoted(s@),
{
    format!("{:?}", s)
}

/// How messages show a token: its kind, with its text in quotes.
pub fn tok_name(k: &TokKind) -> (r: String)
    ensures
        r@ == tok_name_spec(k.v()),
{
    proof {
        reveal(tok_name_spec);
    }
    match k {
        TokKind::Ident(s) => cat3("Ident(", &quote(s), ")"),
        TokKind::Int(s) => cat3("Int(", &quote(s), ")"),
        TokKind::Float(s) => cat3("Float(", &quote(s), ")"),
        TokKind::Str { raw, interpolated } => cat5("Str { raw: ", &quote(raw), ", interpolated: ", if *interpolated { "true" } else { "false" }, " }"),
        TokKind::Regex { pattern, flags } => cat5("Regex { pattern: ", &quote(pattern), ", flags: ", &quote(flags), " }"),
        TokKind::Kw(w) => cat3("Kw(", &kw_name(*w), ")"),
        TokKind::Sym(y) => cat3("Sym(", &sym_name(*y), ")"),
        TokKind::Meta(s) => cat3("Meta(", &quote(s), ")"),
        TokKind::Pp(d, s) => cat5("Pp(", &pp_name(*d), ", ", &quote(s), ")"),
        TokKind::Eof => "Eof".to_owned(),
    }
}

/// What [`kw_of`] computes.
#[verifier::opaque]
pub open spec fn kw_of_spec(s: Seq<char>) -> Option<Kw>
{
    if (s == "package"@) { Some(Kw::Package) } else if (s == "import"@) { Some(Kw::Import) } else if (s == "using"@) { Some(Kw::Using) } else if (s == "class"@) { Some(Kw::Class) } else if (s == "interface"@) { Some(Kw::Interface) } else if (s == "enum"@) { Some(Kw::Enum) } else if (s == "abstract"@) { Some(Kw::Abstract) } else if (s == "typedef"@) { Some(Kw::Typedef) } else if (s == "function"@) { Some(Kw::Function) } else if (s == "var"@) { Some(Kw::Var) } else if (s == "final"@) { Some(Kw::Final) } else if (s == "extern"@) { Some(Kw::Extern) } else if (s == "inline"@) { Some(Kw::Inline) } else if (s == "static"@) { Some(Kw::Static) } else if (s == "override"@) { Some(Kw::Override) } else if (s == "dynamic"@) { Some(Kw::Dynamic) } else if (s == "macro"@) { Some(Kw::Macro) } else if (s == "public"@) { Some(Kw::Public) } else if (s == "private"@) { Some(Kw::Private) } else if (s == "extends"@) { Some(Kw::Extends) } else if (s == "implements"@) { Some(Kw::Implements) } else if (s == "new"@) { Some(Kw::New) } else if (s == "if"@) { Some(Kw::If) } else if (s == "else"@) { Some(Kw::Else) } else if (s == "for"@) { Some(Kw::For) } else if (s == "while"@) { Some(Kw::While) } else if (s == "do"@) { Some(Kw::Do) } else if (s == "switch"@) { Some(Kw::Switch) } else if (s == "case"@) { Some(Kw::Case) } else if (s == "default"@) { Some(Kw::Default) } else if (s == "return"@) { Some(Kw::Return) } else if (s == "break"@) { Some(Kw::Break) } else if (s == "continue"@) { Some(Kw::Continue) } else if (s == "throw"@) { Some(Kw::Throw) } else if (s == "try"@) { Some(Kw::Try) } else if (s == "catch"@) { Some(Kw::Catch) } else if (s == "in"@) { Some(Kw::In) } else if (s == "untyped"@) { Some(Kw::Untyped) } else if (s == "cast"@) { Some(Kw::Cast) } else if (s == "true"@) { Some(Kw::True) } else if (s == "false"@) { Some(Kw::False) } else if (s == "null"@) { Some(Kw::Null) } else if (s == "this"@) { Some(Kw::This) } else if (s == "super"@) { Some(Kw::Super) } else { None }
}

/// What [`kw_text`] computes.
#[verifier::opaque]
pub open spec fn kw_text_spec(k: Kw) -> Seq<char>
{
    match k {
        Kw::Package => { "package"@ },
        Kw::Import => { "import"@ },
        Kw::Using => { "using"@ },
        Kw::Class => { "class"@ },
        Kw::Interface => { "interface"@ },
        Kw::Enum => { "enum"@ },
        Kw::Abstract => { "abstract"@ },
        Kw::Typedef => { "typedef"@ },
        Kw::Function => { "function"@ },
        Kw::Var => { "var"@ },
        Kw::Final => { "final"@ },
        Kw::Extern => { "extern"@ },
        Kw::Inline => { "inline"@ },
        Kw::Static => { "static"@ },
        Kw::Override => { "override"@ },
        Kw::Dynamic => { "dynamic"@ },
        Kw::Macro => { "macro"@ },
        Kw::Public => { "public"@ },
        Kw::Private => { "private"@ },
        Kw::Extends => { "extends"@ },
        Kw::Implements => { "implements"@ },
        Kw::New => { "new"@ },
        Kw::If => { "if"@ },
        Kw::Else => { "else"@ },
        Kw::For => { "for"@ },
        Kw::While => { "while"@ },
        Kw::Do => { "do"@ },
        Kw::Switch => { "switch"@ },
        Kw::Case => { "case"@ },
        Kw::Default => { "default"@ },
        Kw::Return => { "return"@ },
        Kw::Break => { "break"@ },
        Kw::Continue => { "continue"@ },
        Kw::Throw => { "throw"@ },
        Kw::Try => { "try"@ },
        Kw::Catch => { "catch"@ },
        Kw::In => { "in"@ },
        Kw::Untyped => { "untyped"@ },
        Kw::Cast => { "cast"@ },
        Kw::True => { "true"@ },
        Kw::False => { "false"@ },
        Kw::Null => { "null"@ },
        Kw::This => { "this"@ },
        Kw::Super => { "super"@ },
    }
}

/// What [`kw_name`] computes.
#[verifier::opaque]
pub open spec fn kw_name_spec(k: Kw) -> Seq<char>
{
    match k {
        Kw::Package => { "Package"@ },
        Kw::Import => { "Import"@ },
        Kw::Using => { "Using"@ },
        Kw::Class => { "Class"@ },
        Kw::Interface => { "Interface"@ },
        Kw::Enum => { "Enum"@ },
        Kw::Abstract => { "Abstract"@ },
        Kw::Typedef => { "Typedef"@ },
        Kw::Function => { "Function"@ },
        Kw::Var => { "Var"@ },
        Kw::Final => { "Final"@ },
        Kw::Extern => { "Extern"@ },
        Kw::Inline => { "Inline"@ },
        Kw::Static => { "Static"@ },
        Kw::Override => { "Override"@ },
        Kw::Dynamic => { "Dynamic"@ },
        Kw::Macro => { "Macro"@ },
        Kw::Public => { "Public"@ },
        Kw::Private => { "Private"@ },
        Kw::Extends => { "Extends"@ },
        Kw::Implements => { "Implements"@ },
        Kw::New => { "New"@ },
        Kw::If => { "If"@ },
        Kw::Else => { "Else"@ },
        Kw::For => { "For"@ },
        Kw::While => { "While"@ },
        Kw::Do => { "Do"@ },
        Kw::Switch => { "Switch"@ },
        Kw::Case => { "Case"@ },
        Kw::Default => { "Default"@ },
        Kw::Return => { "Return"@ },
        Kw::Break => { "Break"@ },
        Kw::Continue => { "Continue"@ },
        Kw::Throw => { "Throw"@ },
        Kw::Try => { "Try"@ },
        Kw::Catch => { "Catch"@ },
        Kw::In => { "In"@ },
        Kw::Untyped => { "Untyped"@ },
        Kw::Cast => { "Cast"@ },
        Kw::True => { "True"@ },
        Kw::False => { "False"@ },
        Kw::Null => { "Null"@ },
        Kw::This => { "This"@ },
        Kw::Super => { "Super"@ },
    }
}

/// What [`sym_name`] computes.
#[verifier::opaque]
pub open spec fn sym_name_spec(s: Sym) -> Seq<char>
{
    match s {
        Sym::LParen => { "LParen"@ },
        Sym::RParen => { "RParen"@ },
        Sym::LBracket => { "LBracket"@ },
        Sym::RBracket => { "RBracket"@ },
        Sym::LBrace => { "LBrace"@ },
        Sym::RBrace => { "RBrace"@ },
        Sym::Comma => { "Comma"@ },
        Sym::Semi => { "Semi"@ },
        Sym::Colon => { "Colon"@ },
        Sym::Dot => { "Dot"@ },
        Sym::QuestionDot => { "QuestionDot"@ },
        Sym::DotDotDot => { "DotDotDot"@ },
        Sym::Question => { "Question"@ },
        Sym::QuestionQuestion => { "QuestionQuestion"@ },
        Sym::QuestionQuestionEq => { "QuestionQuestionEq"@ },
        Sym::Arrow => { "Arrow"@ },
        Sym::FatArrow => { "FatArrow"@ },
        Sym::Assign => { "Assign"@ },
        Sym::PlusEq => { "PlusEq"@ },
        Sym::MinusEq => { "MinusEq"@ },
        Sym::StarEq => { "StarEq"@ },
        Sym::SlashEq => { "SlashEq"@ },
        Sym::PercentEq => { "PercentEq"@ },
        Sym::AmpEq => { "AmpEq"@ },
        Sym::PipeEq => { "PipeEq"@ },
        Sym::CaretEq => { "CaretEq"@ },
        Sym::ShlEq => { "ShlEq"@ },
        Sym::ShrEq => { "ShrEq"@ },
        Sym::UShrEq => { "UShrEq"@ },
        Sym::Plus => { "Plus"@ },
        Sym::Minus => { "Minus"@ },
        Sym::Star => { "Star"@ },
        Sym::Slash => { "Slash"@ },
        Sym::Percent => { "Percent"@ },
        Sym::Amp => { "Amp"@ },
        Sym::Pipe => { "Pipe"@ },
        Sym::Caret => { "Caret"@ },
        Sym::Tilde => { "Tilde"@ },
        Sym::Bang => { "Bang"@ },
        Sym::AmpAmp => { "AmpAmp"@ },
        Sym::PipePipe => { "PipePipe"@ },
        Sym::Eq => { "Eq"@ },
        Sym::Ne => { "Ne"@ },
        Sym::Lt => { "Lt"@ },
        Sym::Gt => { "Gt"@ },
        Sym::Le => { "Le"@ },
        Sym::Ge => { "Ge"@ },
        Sym::Shl => { "Shl"@ },
        Sym::Shr => { "Shr"@ },
        Sym::UShr => { "UShr"@ },
        Sym::PlusPlus => { "PlusPlus"@ },
        Sym::MinusMinus => { "MinusMinus"@ },
    }
}

/// What [`pp_name`] computes.
#[verifier::opaque]
pub open spec fn pp_name_spec(k: PpKind) -> Seq<char>
{
    match k {
        PpKind::If => { "If"@ },
        PpKind::ElseIf => { "ElseIf"@ },
        PpKind::Else => { "Else"@ },
        PpKind::End => { "End"@ },
    }
}

/// What [`tok_name`] computes.
#[verifier::opaque]
pub open spec fn tok_name_spec(k: TokKindV) -> Seq<char>
{
    match k {
        TokKindV::Ident(s) => { "Ident("@ + quoted(s) + ")"@ },
        TokKindV::Int(s) => { "Int("@ + quoted(s) + ")"@ },
        TokKindV::Float(s) => { "Float("@ + quoted(s) + ")"@ },
        TokKindV::Str { raw, interpolated } => {
            "Str { raw: "@ + quoted(raw) + ", interpolated: "@ + (if interpolated { "true"@ } else { "false"@ }) + " }"@
        },
        TokKindV::Regex { pattern, flags } => { "Regex { pattern: "@ + quoted(pattern) + ", flags: "@ + quoted(flags) + " }"@ },
        TokKindV::Kw(w) => { "Kw("@ + kw_name_spec(w) + ")"@ },
        TokKindV::Sym(y) => { "Sym("@ + sym_name_spec(y) + ")"@ },
        TokKindV::Meta(s) => { "Meta("@ + quoted(s) + ")"@ },
        TokKindV::Pp(d, s) => { "Pp("@ + pp_name_spec(d) + ", "@ + quoted(s) + ")"@ },
        TokKindV::Eof => { "Eof"@ },
    }
}

} // verus!
