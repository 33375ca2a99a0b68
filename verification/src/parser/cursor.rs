//! The token cursor: looking at the next token, taking it, and the pieces of grammar
//! that skip or capture tokens without reading them as syntax.

use vstd::prelude::*;

use crate::ast::{Meta, Stmt};
use crate::lexer::{cut, cut_spec, ends_in_eof};
use crate::model::{MetaV, StmtV, metas_v, stmts_v};
use crate::parser::{ParseError, ParseErrorV};
use crate::parser::pp::{Defines, trim, trim_spec};
use crate::text::{cat2, cat4, texts};
use crate::token::{Kw, Sym, TokKind, TokKindV, Token, TokenV, kw_name, kw_name_spec, sym_name, sym_name_spec, tok_name, tok_name_spec, tokens_v};

verus! {

broadcast use {crate::model::group_model, crate::token::group_token, crate::text::group_texts};

/// What stays the same during a parse: the tokens, the text they were read from, and
/// the flags that are defined.
pub struct Ctx {
    pub toks: Seq<TokenV>,
    pub src: Seq<char>,
    pub defs: Set<Seq<char>>,
}

/// Where a parse stands: the next token, how many `>` of it closed a type already, and
/// the declarators that wait for the statement list around them.
pub struct St {
    pub pos: int,
    pub gt: int,
    pub extra: Seq<StmtV>,
}

/// What parsing one piece of grammar comes to: its tree and where the parse then stands,
/// or the error that ends it.
pub enum Pr<T> {
    Done(T, St),
    Fail(ParseErrorV),
}

/// An outcome no parse has; it stands where a piece of grammar would take no token.
pub open spec fn stuck() -> ParseErrorV {
    ParseErrorV { message: Seq::empty(), line: 0 }
}

/// `r` itself where the piece took a token. Every piece this is applied to takes one, so
/// the parse moves forward and its definition is well-founded.
pub open spec fn step<T>(c: Ctx, st: St, r: Pr<T>) -> Pr<T> {
    match r {
        Pr::Done(x, s) => if st.pos < s.pos < c.toks.len() { r } else { Pr::Fail(stuck()) },
        Pr::Fail(_) => r,
    }
}

/// `r` itself where the piece did not move backwards. None does.
pub open spec fn stay<T>(c: Ctx, st: St, r: Pr<T>) -> Pr<T> {
    match r {
        Pr::Done(x, s) => if st.pos <= s.pos < c.toks.len() { r } else { Pr::Fail(stuck()) },
        Pr::Fail(_) => r,
    }
}

/// The outcome of a parsing function.
pub type PResult<T> = Result<T, ParseError>;

/// A parse in progress.
pub struct Parser {
    toks: Vec<Token>,
    src: Vec<char>,
    defines: Defines,
    pos: usize,
    /// How many `>` of the next token closed a type already.
    gt: usize,
    /// The second and later declarators of `var a = 1, b = 2;`. A statement parses to
    /// one `Stmt::Var`; the others wait here and the statement list that asked for the
    /// statement takes them right after it, in the same scope.
    extra: Vec<Stmt>,
}

/// The kind of the token at `i`; past the last one there is only the end of the file.
pub open spec fn kind_at(c: Ctx, i: int) -> TokKindV {
    if 0 <= i && i + 1 < c.toks.len() {
        c.toks[i].kind
    } else {
        TokKindV::Eof
    }
}

/// What `peek` gives.
pub open spec fn peek_spec(c: Ctx, st: St) -> TokKindV {
    kind_at(c, st.pos)
}

/// What `peek2` gives.
pub open spec fn peek2_spec(c: Ctx, st: St) -> TokKindV {
    kind_at(c, st.pos + 1)
}

/// What `line` gives.
pub open spec fn line_spec(c: Ctx, st: St) -> int {
    c.toks[st.pos].line
}

/// The state behind the current token.
pub open spec fn bump_spec(c: Ctx, st: St) -> St {
    St { pos: if st.pos + 1 < c.toks.len() { st.pos + 1 } else { st.pos }, gt: 0, ..st }
}

/// The statements that were held back, behind `stmts`.
pub open spec fn take_extra_spec(c: Ctx, st: St, stmts: Seq<StmtV>) -> (St, Seq<StmtV>) {
    (St { extra: Seq::empty(), ..st }, stmts + st.extra)
}

/// The state with nothing held back, and what was.
pub open spec fn set_aside_spec(c: Ctx, st: St) -> (St, Seq<StmtV>) {
    (St { extra: Seq::empty(), ..st }, st.extra)
}

/// The state with the given statements held back.
pub open spec fn put_back_spec(c: Ctx, st: St, waiting: Seq<StmtV>) -> St {
    St { extra: waiting, ..st }
}

/// The state with a statement held back.
pub open spec fn hold_spec(c: Ctx, st: St, s: StmtV) -> St {
    St { extra: st.extra.push(s), ..st }
}

/// The `>` of a symbol that can close a type.
pub open spec fn closers(k: TokKindV) -> int {
    match k {
        TokKindV::Sym(Sym::Gt) => 1,
        TokKindV::Sym(Sym::Shr) => 2,
        TokKindV::Sym(Sym::UShr) => 3,
        _ => 0,
    }
}

/// Closing a type takes one `>`, also one of several that stand together.
pub open spec fn eat_gt_spec(c: Ctx, st: St) -> (St, bool) {
    let n = closers(peek_spec(c, st));
    if n == 0 {
        (st, false)
    } else if st.gt + 1 < n {
        (St { gt: st.gt + 1, ..st }, true)
    } else {
        (bump_spec(c, st), true)
    }
}

/// The source the tokens from `a` up to `b` span: the text inside a lone string literal,
/// otherwise the source itself without the white space around it.
pub open spec fn capture_arg_spec(c: Ctx, st: St, a: int, b: int) -> Seq<char> {
    match kind_at(c, a) {
        TokKindV::Str { raw, interpolated: _ } if b == a + 1 => raw,
        _ => if 0 <= a < c.toks.len() && 0 < b <= c.toks.len() {
            trim_spec(cut_spec(c.src, c.toks[a].start, c.toks[b - 1].end))
        } else {
            Seq::empty()
        },
    }
}

impl Parser {
    /// What stays the same during this parse.
    pub closed spec fn cx(&self) -> Ctx {
        Ctx { toks: tokens_v(self.toks@), src: self.src@, defs: self.defines@ }
    }

    /// Where this parse stands.
    pub closed spec fn st(&self) -> St {
        St { pos: self.pos as int, gt: self.gt as int, extra: stmts_v(self.extra@) }
    }

    /// The tokens end in the end of the file, and the next one is among them.
    pub open spec fn wf(&self) -> bool {
        &&& ends_in_eof(self.cx().toks)
        &&& 0 <= self.st().pos < self.cx().toks.len()
        &&& 0 <= self.st().gt <= 2
    }

    /// How many tokens are left.
    pub open spec fn left(&self) -> int {
        self.cx().toks.len() - self.st().pos
    }

    pub fn new(toks: Vec<Token>, src: Vec<char>, defs: &Defines) -> (r: Parser)
        requires
            ends_in_eof(tokens_v(toks@)),
        ensures
            r.wf(),
            r.cx() == (Ctx { toks: tokens_v(toks@), src: src@, defs: defs@ }),
            r.st() == (St { pos: 0, gt: 0, extra: Seq::empty() }),
    {
        let p = Parser { toks, src, defines: defs.dup(), pos: 0, gt: 0, extra: Vec::new() };
        proof {
            assert(p.st().extra =~= Seq::empty());
        }
        p
    }

    /// There are no more tokens than a list can hold.
    pub proof fn count_fits(&self)
        ensures
            self.cx().toks.len() <= usize::MAX,
    {
        assert(self.toks.len() <= usize::MAX);
    }

    /// The flags that are defined.
    pub fn flags(&self) -> (r: &Defines)
        ensures
            r@ == self.cx().defs,
    {
        &self.defines
    }

    /// The kind of the token at `i`.
    pub fn kind_of(&self, i: usize) -> (r: &TokKind)
        requires
            self.wf(),
        ensures
            r.v() == kind_at(self.cx(), i as int),
    {
        if i < self.toks.len() {
            &self.toks[i].kind
        } else {
            &self.toks[self.toks.len() - 1].kind
        }
    }

    /// The index of the current token.
    pub fn pos(&self) -> (r: usize)
        requires
            self.wf(),
        ensures
            r as int == self.st().pos,
            r < usize::MAX,
    {
        assert(self.pos < self.toks.len());
        self.pos
    }

    /// How many tokens there are.
    pub fn count(&self) -> (r: usize)
        ensures
            r as int == self.cx().toks.len(),
    {
        self.toks.len()
    }

    /// The kind of the current token.
    pub fn peek(&self) -> (r: &TokKind)
        requires
            self.wf(),
        ensures
            r.v() == peek_spec(self.cx(), self.st()),
    {
        &self.toks[self.pos].kind
    }

    /// The kind of the token behind the current one.
    pub fn peek2(&self) -> (r: &TokKind)
        requires
            self.wf(),
        ensures
            r.v() == peek2_spec(self.cx(), self.st()),
    {
        assert(self.pos < self.toks.len());
        self.kind_of(self.pos + 1)
    }

    /// The line of the current token.
    pub fn line(&self) -> (r: usize)
        requires
            self.wf(),
        ensures
            r as int == line_spec(self.cx(), self.st()),
    {
        self.toks[self.pos].line
    }

    /// Take the next token; the end of the file is never taken.
    pub fn bump(&mut self)
        requires
            old(self).wf(),
        ensures
            final(self).wf(),
            final(self).cx() == old(self).cx(),
            final(self).st() == bump_spec(old(self).cx(), old(self).st()),
    {
        assert(self.pos < self.toks.len());
        if self.pos + 1 < self.toks.len() {
            self.pos = self.pos + 1;
        }
        self.gt = 0;
    }

    /// The statements with the declarators that waited appended.
    pub fn take_extra(&mut self, stmts: Vec<Stmt>) -> (r: Vec<Stmt>)
        requires
            old(self).wf(),
        ensures
            final(self).wf(),
            final(self).cx() == old(self).cx(),
            (final(self).st(), stmts_v(r@)) == take_extra_spec(old(self).cx(), old(self).st(), stmts_v(stmts@)),
    {
        let mut out = stmts;
        out.append(&mut self.extra);
        proof {
            assert(stmts_v(out@) =~= stmts_v(stmts@) + old(self).st().extra);
            assert(self.st().extra =~= Seq::empty());
        }
        out
    }

    /// Set aside the declarators that wait for a statement list around this one.
    pub fn set_aside(&mut self) -> (r: Vec<Stmt>)
        requires
            old(self).wf(),
        ensures
            final(self).wf(),
            final(self).cx() == old(self).cx(),
            (final(self).st(), stmts_v(r@)) == set_aside_spec(old(self).cx(), old(self).st()),
    {
        let mut out: Vec<Stmt> = Vec::new();
        out.append(&mut self.extra);
        proof {
            assert(stmts_v(out@) =~= old(self).st().extra);
            assert(self.st().extra =~= Seq::empty());
        }
        out
    }

    /// Let the declarators that were set aside wait again.
    pub fn put_back(&mut self, waiting: Vec<Stmt>)
        requires
            old(self).wf(),
        ensures
            final(self).wf(),
            final(self).cx() == old(self).cx(),
            final(self).st() == put_back_spec(old(self).cx(), old(self).st(), stmts_v(waiting@)),
    {
        self.extra = waiting;
    }

    /// Keep a declarator for the statement list around it.
    pub fn hold(&mut self, s: Stmt)
        requires
            old(self).wf(),
        ensures
            final(self).wf(),
            final(self).cx() == old(self).cx(),
            final(self).st() == hold_spec(old(self).cx(), old(self).st(), s.v()),
    {
        self.extra.push(s);
        proof {
            assert(self.st().extra =~= old(self).st().extra.push(s.v()));
        }
    }

    /// Take one `>`, also off a longer operator that begins with it.
    pub fn eat_gt(&mut self) -> (r: bool)
        requires
            old(self).wf(),
        ensures
            final(self).wf(),
            final(self).cx() == old(self).cx(),
            (final(self).st(), r) == eat_gt_spec(old(self).cx(), old(self).st()),
    {
        let n: usize = match self.peek() {
            TokKind::Sym(Sym::Gt) => 1,
            TokKind::Sym(Sym::Shr) => 2,
            TokKind::Sym(Sym::UShr) => 3,
            _ => 0,
        };
        if n == 0 {
            false
        } else if self.gt + 1 < n {
            self.gt = self.gt + 1;
            true
        } else {
            self.bump();
            true
        }
    }

    /// The source of a metadata argument that spans the tokens from `a` up to `b`.
    pub fn capture_arg(&self, a: usize, b: usize) -> (r: String)
        requires
            self.wf(),
        ensures
            r@ == capture_arg_spec(self.cx(), self.st(), a as int, b as int),
    {
        match self.kind_of(a) {
            TokKind::Str { raw, interpolated: _ } if b > 0 && b - 1 == a => raw.clone(),
            _ => {
                if a < self.toks.len() && 0 < b && b <= self.toks.len() {
                    trim(&cut(&self.src, self.toks[a].start, self.toks[b - 1].end))
                } else {
                    String::new()
                }
            },
        }
    }

    /// Whether a symbol comes.
    pub fn at_sym(&self, s: Sym) -> (r: bool)
        requires
            self.wf(),
        ensures
            r == at_sym_spec(self.cx(), self.st(), s),
    {
        matches!(self.peek(), TokKind::Sym(x) if *x == s)
    }

    /// Whether a keyword comes.
    pub fn at_kw(&self, k: Kw) -> (r: bool)
        requires
            self.wf(),
        ensures
            r == at_kw_spec(self.cx(), self.st(), k),
    {
        matches!(self.peek(), TokKind::Kw(x) if *x == k)
    }

    /// Whether no token is left.
    pub fn at_eof(&self) -> (r: bool)
        requires
            self.wf(),
        ensures
            r == at_eof_spec(self.cx(), self.st()),
    {
        matches!(self.peek(), TokKind::Eof)
    }

    /// Take a symbol where it comes.
    pub fn eat_sym(&mut self, s: Sym) -> (r: bool)
        requires
            old(self).wf(),
        ensures
            final(self).wf(),
            final(self).cx() == old(self).cx(),
            (final(self).st(), r) == eat_sym_spec(old(self).cx(), old(self).st(), s),
            final(self).st().pos >= old(self).st().pos,
            r ==> final(self).st().pos == old(self).st().pos + 1,
    {
        if self.at_sym(s) {
            self.bump();
            true
        } else {
            false
        }
    }

    /// Take a keyword where it comes.
    pub fn eat_kw(&mut self, k: Kw) -> (r: bool)
        requires
            old(self).wf(),
        ensures
            final(self).wf(),
            final(self).cx() == old(self).cx(),
            (final(self).st(), r) == eat_kw_spec(old(self).cx(), old(self).st(), k),
            final(self).st().pos >= old(self).st().pos,
            r ==> final(self).st().pos == old(self).st().pos + 1,
    {
        if self.at_kw(k) {
            self.bump();
            true
        } else {
            false
        }
    }

    /// An error at the current line.
    pub fn err(&self, msg: &str) -> (r: ParseError)
        requires
            self.wf(),
        ensures
            r.v() == err_spec(self.cx(), self.st(), msg@),
    {
        ParseError { message: msg.to_owned(), line: self.line() }
    }

    /// Take a symbol that must come.
    pub fn expect_sym(&mut self, s: Sym) -> (r: PResult<()>)
        requires
            old(self).wf(),
        ensures
            final(self).wf(),
            final(self).cx() == old(self).cx(),
            expect_sym_spec(old(self).cx(), old(self).st(), s) == (match r { Ok(x) => Pr::Done((), final(self).st()), Err(e) => Pr::Fail(e.v()) }),
            final(self).st().pos >= old(self).st().pos,
            r is Ok ==> final(self).st().pos > old(self).st().pos,
            r is Ok ==> final(self).st().extra == old(self).st().extra,
    {
        if self.eat_sym(s) {
            Ok(())
        } else {
            Err(self.err(&cat4("expected ", &sym_name(s), ", found ", &tok_name(self.peek()))))
        }
    }

    /// Take a keyword that must come.
    pub fn expect_sym_kw(&mut self, k: Kw) -> (r: PResult<()>)
        requires
            old(self).wf(),
        ensures
            final(self).wf(),
            final(self).cx() == old(self).cx(),
            expect_sym_kw_spec(old(self).cx(), old(self).st(), k) == (match r { Ok(x) => Pr::Done((), final(self).st()), Err(e) => Pr::Fail(e.v()) }),
            final(self).st().pos >= old(self).st().pos,
            r is Ok ==> final(self).st().pos > old(self).st().pos,
            r is Ok ==> final(self).st().extra == old(self).st().extra,
    {
        if self.eat_kw(k) {
            Ok(())
        } else {
            Err(self.err(&cat2("expected keyword ", &kw_name(k))))
        }
    }

    /// Take a name that must come.
    pub fn expect_ident(&mut self) -> (r: PResult<String>)
        requires
            old(self).wf(),
        ensures
            final(self).wf(),
            final(self).cx() == old(self).cx(),
            expect_ident_spec(old(self).cx(), old(self).st()) == (match r { Ok(x) => Pr::Done(x@, final(self).st()), Err(e) => Pr::Fail(e.v()) }),
            final(self).st().pos >= old(self).st().pos,
            r is Ok ==> final(self).st().pos > old(self).st().pos,
            r is Ok ==> final(self).st().extra == old(self).st().extra,
    {
        match self.peek() {
            TokKind::Ident(s) => {
                let s = s.clone();
                self.bump();
                Ok(s)
            },
            other => Err(self.err(&cat2("expected identifier, found ", &tok_name(other)))),
        }
    }

    /// Skip to the `{` that begins a declaration body.
    fn skip_to_brace(&mut self) -> (r: PResult<()>)
        requires
            old(self).wf(),
        ensures
            final(self).wf(),
            final(self).cx() == old(self).cx(),
            skip_to_brace_spec(old(self).cx(), old(self).st()) == (match r { Ok(x) => Pr::Done((), final(self).st()), Err(e) => Pr::Fail(e.v()) }),
            final(self).st().pos >= old(self).st().pos,
            r is Ok ==> final(self).st().extra == old(self).st().extra,
    {
        #[verifier::loop_isolation(false)]
        loop
            invariant
                self.wf(),
                self.cx() == old(self).cx(),
                self.st().pos >= old(self).st().pos,
                skip_to_brace_spec(old(self).cx(), old(self).st()) == skip_to_brace_spec(self.cx(), self.st()),
                self.st().extra == old(self).st().extra,
            decreases self.left(),
        {
            proof {
                reveal(skip_to_brace_spec);
            }
            if self.at_sym(Sym::LBrace) {
                return Ok(());
            }
            if self.at_eof() {
                return Err(self.err("expected `{` to begin the declaration body"));
            }
            self.bump();
        }
    }

    fn skip_braces(&mut self, message: &str, depth: usize) -> (r: PResult<()>)
        requires
            old(self).wf(),
            depth as int + old(self).left() <= usize::MAX,
        ensures
            final(self).wf(),
            final(self).cx() == old(self).cx(),
            skip_braces_spec(old(self).cx(), old(self).st(), message@, (depth as int)) == (match r { Ok(x) => Pr::Done((), final(self).st()), Err(e) => Pr::Fail(e.v()) }),
            final(self).st().pos >= old(self).st().pos,
            r is Ok ==> final(self).st().extra == old(self).st().extra,
    {
        let ghost depth_0 = depth;
        let mut depth: usize = depth;
        #[verifier::loop_isolation(false)]
        loop
            invariant
                self.wf(),
                self.cx() == old(self).cx(),
                self.st().pos >= old(self).st().pos,
                skip_braces_spec(old(self).cx(), old(self).st(), message@, (depth_0 as int)) == skip_braces_spec(self.cx(), self.st(), message@, (depth as int)),
                self.st().extra == old(self).st().extra,
                depth as int + self.left() <= usize::MAX,
            decreases self.left(),
        {
            proof {
                reveal(skip_braces_spec);
            }
            if self.at_eof() {
                return Err(self.err(message));
            }
            if self.at_sym(Sym::LBrace) {
                depth = depth + 1;
            } else if self.at_sym(Sym::RBrace) && depth > 0 {
                depth = depth - 1;
            }
            self.bump();
            if depth == 0 {
                return Ok(());
            }
        }
    }

    /// Skip a declaration body: advance to the next `{`, then take the balanced `{ … }`
    /// group.
    pub fn skip_braced_body(&mut self) -> (r: PResult<()>)
        requires
            old(self).wf(),
        ensures
            final(self).wf(),
            final(self).cx() == old(self).cx(),
            skip_braced_body_spec(old(self).cx(), old(self).st()) == (match r { Ok(x) => Pr::Done((), final(self).st()), Err(e) => Pr::Fail(e.v()) }),
            final(self).st().pos >= old(self).st().pos,
            r is Ok ==> final(self).st().extra == old(self).st().extra,
    {
        proof {
            reveal(skip_braced_body_spec);
        }
        self.skip_to_brace()?;
        self.fits();
        self.skip_braces("unterminated declaration body", 0)
    }

    /// Take a balanced `{ … }` block without reading its contents: the body of a
    /// construct that is not transpiled may hold syntax the expression parser rejects.
    pub fn skip_braced_block(&mut self) -> (r: PResult<()>)
        requires
            old(self).wf(),
        ensures
            final(self).wf(),
            final(self).cx() == old(self).cx(),
            skip_braced_block_spec(old(self).cx(), old(self).st()) == (match r { Ok(x) => Pr::Done((), final(self).st()), Err(e) => Pr::Fail(e.v()) }),
            final(self).st().pos >= old(self).st().pos,
            r is Ok ==> final(self).st().pos > old(self).st().pos,
            r is Ok ==> final(self).st().extra == old(self).st().extra,
    {
        self.expect_sym(Sym::LBrace)?;
        self.fits();
        self.skip_braces("unterminated block", 1)
    }

    fn fits(&self)
        requires
            self.wf(),
        ensures
            1 + self.left() <= usize::MAX || self.st().pos == 0,
            self.left() <= usize::MAX,
    {
        assert(self.toks.len() <= usize::MAX);
    }

    // ---- metadata -------------------------------------------------------

    /// One `@name` or `@name(args)`.
    pub fn parse_meta(&mut self) -> (r: PResult<Meta>)
        requires
            old(self).wf(),
        ensures
            final(self).wf(),
            final(self).cx() == old(self).cx(),
            parse_meta_spec(old(self).cx(), old(self).st()) == (match r { Ok(x) => Pr::Done(x.v(), final(self).st()), Err(e) => Pr::Fail(e.v()) }),
            final(self).st().pos >= old(self).st().pos,
            r is Ok ==> final(self).st().pos > old(self).st().pos,
            r is Ok ==> final(self).st().extra == old(self).st().extra,
    {
        proof {
            reveal(parse_meta_spec);
        }
        match self.peek() {
            TokKind::Meta(n) => {
                let name = n.clone();
                self.bump();
                if self.at_sym(Sym::LParen) {
                    let args = self.parse_meta_args()?;
                    Ok(Meta { name, args })
                } else {
                    Ok(Meta { name, args: Vec::new() })
                }
            },
            other => Err(self.err(&cat2("expected metadata, found ", &tok_name(other)))),
        }
    }

    /// Metadata up to the first token that is none.
    pub fn parse_metas(&mut self, metas: Vec<Meta>) -> (r: PResult<Vec<Meta>>)
        requires
            old(self).wf(),
        ensures
            final(self).wf(),
            final(self).cx() == old(self).cx(),
            parse_metas_spec(old(self).cx(), old(self).st(), metas_v(metas@)) == (match r { Ok(x) => Pr::Done(metas_v(x@), final(self).st()), Err(e) => Pr::Fail(e.v()) }),
            final(self).st().pos >= old(self).st().pos,
            r is Ok ==> final(self).st().extra == old(self).st().extra,
    {
        let ghost metas_0 = metas;
        let mut metas: Vec<Meta> = metas;
        #[verifier::loop_isolation(false)]
        loop
            invariant
                self.wf(),
                self.cx() == old(self).cx(),
                self.st().pos >= old(self).st().pos,
                parse_metas_spec(old(self).cx(), old(self).st(), metas_v(metas_0@)) == parse_metas_spec(self.cx(), self.st(), metas_v(metas@)),
                self.st().extra == old(self).st().extra,
            decreases self.left(),
        {
            proof {
                reveal(parse_metas_spec);
            }
            if !matches!(self.peek(), TokKind::Meta(_)) {
                return Ok(metas);
            }
            let m = self.parse_meta()?;
            metas.push(m);
        }
    }

    /// The metadata that stands here, possibly none.
    pub fn parse_meta_list(&mut self) -> (r: PResult<Vec<Meta>>)
        requires
            old(self).wf(),
        ensures
            final(self).wf(),
            final(self).cx() == old(self).cx(),
            parse_meta_list_spec(old(self).cx(), old(self).st()) == (match r { Ok(x) => Pr::Done(metas_v(x@), final(self).st()), Err(e) => Pr::Fail(e.v()) }),
            final(self).st().pos >= old(self).st().pos,
            r is Ok ==> final(self).st().extra == old(self).st().extra,
    {
        proof {
            reveal(parse_meta_list_spec);
        }
        self.parse_metas(Vec::new())
    }

    /// `( arg, arg, ... )`, each top-level argument captured as its source. A lone string
    /// argument is captured as its inner text (so `@:native("x")` yields `x`).
    pub fn parse_meta_args(&mut self) -> (r: PResult<Vec<String>>)
        requires
            old(self).wf(),
        ensures
            final(self).wf(),
            final(self).cx() == old(self).cx(),
            parse_meta_args_spec(old(self).cx(), old(self).st()) == (match r { Ok(x) => Pr::Done(texts(x@), final(self).st()), Err(e) => Pr::Fail(e.v()) }),
            final(self).st().pos >= old(self).st().pos,
            r is Ok ==> final(self).st().pos > old(self).st().pos,
            r is Ok ==> final(self).st().extra == old(self).st().extra,
    {
        self.expect_sym(Sym::LParen)?;
        if self.eat_sym(Sym::RParen) {
            return Ok(Vec::new());
        }
        self.parse_meta_args_from(Vec::new())
    }

    fn parse_meta_args_from(&mut self, args: Vec<String>) -> (r: PResult<Vec<String>>)
        requires
            old(self).wf(),
        ensures
            final(self).wf(),
            final(self).cx() == old(self).cx(),
            parse_meta_args_from_spec(old(self).cx(), old(self).st(), texts(args@)) == (match r { Ok(x) => Pr::Done(texts(x@), final(self).st()), Err(e) => Pr::Fail(e.v()) }),
            final(self).st().pos >= old(self).st().pos,
            r is Ok ==> final(self).st().pos > old(self).st().pos,
            r is Ok ==> final(self).st().extra == old(self).st().extra,
    {
        let ghost args_0 = args;
        let mut args: Vec<String> = args;
        #[verifier::loop_isolation(false)]
        loop
            invariant
                self.wf(),
                self.cx() == old(self).cx(),
                self.st().pos >= old(self).st().pos,
                parse_meta_args_from_spec(old(self).cx(), old(self).st(), texts(args_0@)) == parse_meta_args_from_spec(self.cx(), self.st(), texts(args@)),
                self.st().extra == old(self).st().extra,
            decreases self.left(),
        {
            proof {
                reveal(parse_meta_args_from_spec);
            }
            let a: usize = self.pos();
            self.skip_arg(0)?;
            let b: usize = self.pos();
            args.push(self.capture_arg(a, b));
            if self.eat_sym(Sym::RParen) {
                return Ok(args);
            }
            if !self.eat_sym(Sym::Comma) {
                return Err(self.err(&cat2("expected RParen, found ", &tok_name(self.peek()))));
            }
        }
    }

    /// Advance over one argument, stopping before a top-level `,` or closing bracket.
    fn skip_arg(&mut self, depth: usize) -> (r: PResult<()>)
        requires
            old(self).wf(),
            depth == 0,
        ensures
            final(self).wf(),
            final(self).cx() == old(self).cx(),
            skip_arg_spec(old(self).cx(), old(self).st(), (depth as int)) == (match r { Ok(x) => Pr::Done((), final(self).st()), Err(e) => Pr::Fail(e.v()) }),
            final(self).st().pos >= old(self).st().pos,
            r is Ok ==> final(self).st().extra == old(self).st().extra,
    {
        proof {
            self.count_fits();
        }
        let ghost depth_0 = depth;
        let mut depth: usize = depth;
        #[verifier::loop_isolation(false)]
        loop
            invariant
                self.wf(),
                self.cx() == old(self).cx(),
                self.st().pos >= old(self).st().pos,
                skip_arg_spec(old(self).cx(), old(self).st(), (depth_0 as int)) == skip_arg_spec(self.cx(), self.st(), (depth as int)),
                self.st().extra == old(self).st().extra,
                depth as int + self.left() <= usize::MAX,
            decreases self.left(),
        {
            proof {
                self.count_fits();
            }
            proof {
                reveal(skip_arg_spec);
            }
            match self.peek() {
                TokKind::Eof => {
                    return Err(self.err("unterminated metadata arguments"));
                },
                TokKind::Sym(Sym::LParen | Sym::LBracket | Sym::LBrace) => {
                    depth = depth + 1;
                },
                TokKind::Sym(Sym::RParen | Sym::RBracket | Sym::RBrace) => {
                    if depth == 0 {
                        return Ok(());
                    }
                    depth = depth - 1;
                },
                TokKind::Sym(Sym::Comma) => {
                    if depth == 0 {
                        return Ok(());
                    }
                },
                _ => {},
            }
            self.bump();
        }
    }
}

/// What [`Parser::at_sym`] computes.
pub open spec fn at_sym_spec(c: Ctx, st: St, s: Sym) -> bool
{
    (match peek_spec(c, st) { TokKindV::Sym(x) => x == s, _ => false })
}

/// What [`Parser::at_kw`] computes.
pub open spec fn at_kw_spec(c: Ctx, st: St, k: Kw) -> bool
{
    (match peek_spec(c, st) { TokKindV::Kw(x) => x == k, _ => false })
}

/// What [`Parser::at_eof`] computes.
pub open spec fn at_eof_spec(c: Ctx, st: St) -> bool
{
    (match peek_spec(c, st) { TokKindV::Eof => true, _ => false })
}

/// What [`Parser::eat_sym`] computes.
pub open spec fn eat_sym_spec(c: Ctx, st: St, s: Sym) -> (St, bool)
{
    if at_sym_spec(c, st, s) {
        let st = bump_spec(c, st);
        (st, true)
    } else { (st, false) }
}

/// What [`Parser::eat_kw`] computes.
pub open spec fn eat_kw_spec(c: Ctx, st: St, k: Kw) -> (St, bool)
{
    if at_kw_spec(c, st, k) {
        let st = bump_spec(c, st);
        (st, true)
    } else { (st, false) }
}

/// What [`Parser::err`] computes.
pub open spec fn err_spec(c: Ctx, st: St, msg: Seq<char>) -> ParseErrorV
{
    ParseErrorV { message: msg, line: line_spec(c, st) }
}

/// What [`Parser::expect_sym`] computes.
pub open spec fn expect_sym_spec(c: Ctx, st: St, s: Sym) -> Pr<()>
{
    let (st, x1) = eat_sym_spec(c, st, s);
    if x1 { Pr::Done((), st) } else {
        Pr::Fail(err_spec(c, st, "expected "@ + sym_name_spec(s) + ", found "@ + (tok_name_spec(peek_spec(c, st)))))
    }
}

/// What [`Parser::expect_sym_kw`] computes.
pub open spec fn expect_sym_kw_spec(c: Ctx, st: St, k: Kw) -> Pr<()>
{
    let (st, x1) = eat_kw_spec(c, st, k);
    if x1 { Pr::Done((), st) } else { Pr::Fail(err_spec(c, st, "expected keyword "@ + kw_name_spec(k))) }
}

/// What [`Parser::expect_ident`] computes.
pub open spec fn expect_ident_spec(c: Ctx, st: St) -> Pr<Seq<char>>
{
    match peek_spec(c, st) {
        TokKindV::Ident(s) => {
            let s = s;
            let st = bump_spec(c, st);
            Pr::Done(s, st)
        },
        other => { Pr::Fail(err_spec(c, st, "expected identifier, found "@ + tok_name_spec(other))) },
    }
}

/// What [`Parser::skip_to_brace`] computes.
#[verifier::opaque]
pub open spec fn skip_to_brace_spec(c: Ctx, st: St) -> Pr<()>
    decreases c.toks.len() - st.pos,
{
    if at_sym_spec(c, st, Sym::LBrace) { Pr::Done((), st) } else {
        match { if at_eof_spec(c, st) {
                Pr::Fail(err_spec(c, st, "expected `{` to begin the declaration body"@))
            } else { Pr::Done((), st) } } {
            Pr::Fail(e) => Pr::Fail(e),
            Pr::Done(_, st) => {
                let st = bump_spec(c, st);
                skip_to_brace_spec(c, st)
            },
        }
    }
}

/// What [`Parser::skip_braces`] computes.
#[verifier::opaque]
pub open spec fn skip_braces_spec(c: Ctx, st: St, message: Seq<char>, depth: int) -> Pr<()>
    decreases c.toks.len() - st.pos,
{
    match { if at_eof_spec(c, st) { Pr::Fail(err_spec(c, st, message)) } else { Pr::Done((), st) } } {
        Pr::Fail(e) => Pr::Fail(e),
        Pr::Done(_, st) => {
            let depth = if at_sym_spec(c, st, Sym::LBrace) {
                let depth = depth + 1;
                depth
            } else if at_sym_spec(c, st, Sym::RBrace) && (depth > 0) {
                let depth = depth - 1;
                depth
            } else { depth };
            let st = bump_spec(c, st);
            if depth == 0 { Pr::Done((), st) } else { skip_braces_spec(c, st, message, depth) }
        },
    }
}

/// What [`Parser::skip_braced_body`] computes.
#[verifier::opaque]
pub open spec fn skip_braced_body_spec(c: Ctx, st: St) -> Pr<()>
{
    match stay(c, st, skip_to_brace_spec(c, st)) {
        Pr::Fail(e) => Pr::Fail(e),
        Pr::Done(_, st) => { skip_braces_spec(c, st, "unterminated declaration body"@, 0int) },
    }
}

/// What [`Parser::skip_braced_block`] computes.
pub open spec fn skip_braced_block_spec(c: Ctx, st: St) -> Pr<()>
{
    match expect_sym_spec(c, st, Sym::LBrace) {
        Pr::Fail(e) => Pr::Fail(e),
        Pr::Done(_, st) => { skip_braces_spec(c, st, "unterminated block"@, 1int) },
    }
}

/// What [`Parser::parse_meta`] computes.
#[verifier::opaque]
pub open spec fn parse_meta_spec(c: Ctx, st: St) -> Pr<MetaV>
{
    match peek_spec(c, st) {
        TokKindV::Meta(n) => {
            let name = n;
            let st = bump_spec(c, st);
            if at_sym_spec(c, st, Sym::LParen) {
                match parse_meta_args_spec(c, st) {
                    Pr::Fail(e) => Pr::Fail(e),
                    Pr::Done(args, st) => { Pr::Done(MetaV { name, args }, st) },
                }
            } else { Pr::Done(MetaV { name, args: Seq::empty() }, st) }
        },
        other => { Pr::Fail(err_spec(c, st, "expected metadata, found "@ + tok_name_spec(other))) },
    }
}

/// What [`Parser::parse_metas`] computes.
#[verifier::opaque]
pub open spec fn parse_metas_spec(c: Ctx, st: St, metas: Seq<MetaV>) -> Pr<Seq<MetaV>>
    decreases c.toks.len() - st.pos,
{
    if !(match peek_spec(c, st) { TokKindV::Meta(_) => true, _ => false }) { Pr::Done(metas, st) } else {
        match step(c, st, parse_meta_spec(c, st)) {
            Pr::Fail(e) => Pr::Fail(e),
            Pr::Done(m, st) => {
                let metas = metas.push(m);
                parse_metas_spec(c, st, metas)
            },
        }
    }
}

/// What [`Parser::parse_meta_list`] computes.
#[verifier::opaque]
pub open spec fn parse_meta_list_spec(c: Ctx, st: St) -> Pr<Seq<MetaV>>
{
    parse_metas_spec(c, st, Seq::empty())
}

/// What [`Parser::parse_meta_args`] computes.
pub open spec fn parse_meta_args_spec(c: Ctx, st: St) -> Pr<Seq<Seq<char>>>
{
    match expect_sym_spec(c, st, Sym::LParen) {
        Pr::Fail(e) => Pr::Fail(e),
        Pr::Done(_, st) => {
            let (st, x1) = eat_sym_spec(c, st, Sym::RParen);
            if x1 { Pr::Done(Seq::empty(), st) } else { parse_meta_args_from_spec(c, st, Seq::empty()) }
        },
    }
}

/// What [`Parser::parse_meta_args_from`] computes.
#[verifier::opaque]
pub open spec fn parse_meta_args_from_spec(c: Ctx, st: St, args: Seq<Seq<char>>) -> Pr<Seq<Seq<char>>>
    decreases c.toks.len() - st.pos,
{
    let a: int = st.pos;
    match stay(c, st, skip_arg_spec(c, st, 0int)) {
        Pr::Fail(e) => Pr::Fail(e),
        Pr::Done(_, st) => {
            let b: int = st.pos;
            let args = args.push(capture_arg_spec(c, st, a, b));
            let (st, x1) = eat_sym_spec(c, st, Sym::RParen);
            if x1 { Pr::Done(args, st) } else {
                let (st, x2) = eat_sym_spec(c, st, Sym::Comma);
                if !x2 {
                    Pr::Fail(err_spec(c, st, "expected RParen, found "@ + (tok_name_spec(peek_spec(c, st)))))
                } else { parse_meta_args_from_spec(c, st, args) }
            }
        },
    }
}

/// What [`Parser::skip_arg`] computes.
#[verifier::opaque]
pub open spec fn skip_arg_spec(c: Ctx, st: St, depth: int) -> Pr<()>
    decreases c.toks.len() - st.pos,
{
    match peek_spec(c, st) {
        TokKindV::Eof => { Pr::Fail(err_spec(c, st, "unterminated metadata arguments"@)) },
        TokKindV::Sym(Sym::LParen | Sym::LBracket | Sym::LBrace) => {
            let depth = depth + 1;
            let st = bump_spec(c, st);
            skip_arg_spec(c, st, depth)
        },
        TokKindV::Sym(Sym::RParen | Sym::RBracket | Sym::RBrace) => {
            if depth == 0 { Pr::Done((), st) } else {
                let depth = depth - 1;
                let st = bump_spec(c, st);
                skip_arg_spec(c, st, depth)
            }
        },
        TokKindV::Sym(Sym::Comma) => {
            if depth == 0 { Pr::Done((), st) } else {
                let st = bump_spec(c, st);
                skip_arg_spec(c, st, depth)
            }
        },
        _ => {
            let st = bump_spec(c, st);
            skip_arg_spec(c, st, depth)
        },
    }
}

} // verus!
