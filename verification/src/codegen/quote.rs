//! Haxe string literals as C++ string literals, and interpolation.

use vstd::prelude::*;

use crate::lexer::{at, at_spec, is_alpha, is_alpha_spec, is_hex, is_hex_spec, text_of_char};
use crate::text::{cat3, chars_of};

verus! {

broadcast use {crate::text::group_texts};

/// The value of a hexadecimal digit.
pub fn hex_value(c: char) -> (r: usize)
    ensures
        r as int == hex_value_spec(c),
        r <= 15,
{
    if c >= '0' && c <= '9' {
        (c as u32 - 48) as usize
    } else if c >= 'a' && c <= 'f' {
        (c as u32 - 87) as usize
    } else if c >= 'A' && c <= 'F' {
        (c as u32 - 55) as usize
    } else {
        0
    }
}

/// The value of a hexadecimal digit.
pub open spec fn hex_value_spec(c: char) -> int {
    if c >= '0' && c <= '9' {
        c as int - 48
    } else if c >= 'a' && c <= 'f' {
        c as int - 87
    } else if c >= 'A' && c <= 'F' {
        c as int - 55
    } else {
        0
    }
}

/// An octal digit.
pub fn octal_digit(n: usize) -> (r: char)
    ensures
        r == octal_digit_spec(n as int),
{
    if n == 0 { '0' } else if n == 1 { '1' } else if n == 2 { '2' } else if n == 3 { '3' }
    else if n == 4 { '4' } else if n == 5 { '5' } else if n == 6 { '6' } else { '7' }
}

/// An octal digit.
pub open spec fn octal_digit_spec(n: int) -> char {
    if n == 0 { '0' } else if n == 1 { '1' } else if n == 2 { '2' } else if n == 3 { '3' }
    else if n == 4 { '4' } else if n == 5 { '5' } else if n == 6 { '6' } else { '7' }
}

/// A byte as a backslash and three octal digits.
pub open spec fn octal_escape_spec(n: int) -> Seq<char> {
    "\\"@.push(octal_digit_spec(n / 64)).push(octal_digit_spec((n / 8) % 8)).push(octal_digit_spec(n % 8))
}

/// A byte as an octal escape of three digits.
pub fn octal_escape(n: usize) -> (r: String)
    ensures
        r@ == octal_escape_spec(n as int),
{
    let mut s: String = "\\".to_owned();
    s.push(octal_digit(n / 64));
    s.push(octal_digit((n / 8) % 8));
    s.push(octal_digit(n % 8));
    s
}

/// The characters that keep the same escape in C++.
pub fn same_escape(c: char) -> (r: bool)
    ensures
        r == same_escape_spec(c),
{
    c == 'n' || c == 't' || c == 'r' || c == '\\' || c == '"'
}

/// A bare character inside a C++ string literal.
pub fn escape_char(c: char) -> (r: String)
    ensures
        r@ == escape_char_spec(c),
{
    if c == '"' {
        "\\\"".to_owned()
    } else if c == '\\' {
        "\\\\".to_owned()
    } else if c == '\n' {
        "\\n".to_owned()
    } else if c == '\t' {
        "\\t".to_owned()
    } else if c == '\r' {
        "\\r".to_owned()
    } else {
        text_of_char(c)
    }
}

/// The body of a C++ string literal for the raw text from `i` on. Escapes that are the
/// same in both languages pass through; an escaped single quote needs none; numeric byte
/// escapes become three octal digits, which can never absorb a following digit; any other
/// backslash is kept as a literal one.
pub fn escape_from(cs: &Vec<char>, i: usize, out: String) -> (r: String)
    ensures
        r@ == escape_from_spec(cs@, (i as int), out@),
{
    let ghost i_0 = i;
    let ghost out_0 = out;
    let mut i: usize = i;
    let mut out: String = out;
    #[verifier::loop_isolation(false)]
    loop
        invariant
            escape_from_spec(cs@, (i_0 as int), out_0@) == escape_from_spec(cs@, (i as int), out@),
        decreases cs.len() - i,
    {
        if i >= cs.len() {
            return out;
        }
        let c = at(cs, i, 0);
        let n = at(cs, i, 1);
        if c == '\\' && i + 1 < cs.len() {
            if same_escape(n) {
                out.push(c);
                out.push(n);
                i = i + 2;
            } else if n == '\'' {
                out.push(n);
                i = i + 2;
            } else if n == '0' {
                out.append("\\000");
                i = i + 2;
            } else if n == 'x' && is_hex(at(cs, i, 2)) && is_hex(at(cs, i, 3)) {
                out.append(&octal_escape(hex_value(at(cs, i, 2)) * 16 + hex_value(at(cs, i, 3))));
                i = i + 4;
            } else {
                out.append("\\\\");
                i = i + 1;
            }
        } else {
            out.append(&escape_char(c));
            i = i + 1;
        }
    }
}

/// The raw text of a Haxe string literal as the body of a C++ string literal.
pub fn escape_str(s: &str) -> (r: String)
    ensures
        r@ == escape_str_spec(s@),
{
    proof {
        reveal(escape_str_spec);
    }
    escape_from(&chars_of(s), 0, String::new())
}

/// A C++ string literal for the raw text of a Haxe one.
pub fn quoted_cpp(s: &str) -> (r: String)
    ensures
        r@ == quoted_cpp_spec(s@),
{
    cat3("\"", &escape_str(s), "\"")
}

/// Whether the `$` at `i` begins an interpolation: `${expr}` or `$ident`.
pub fn interpolates_at(cs: &Vec<char>, i: usize) -> (r: bool)
    ensures
        r == interpolates_at_spec(cs@, (i as int)),
{
    at(cs, i, 0) == '$' && (at(cs, i, 1) == '{' || is_alpha(at(cs, i, 1)) || at(cs, i, 1) == '_')
}

/// Whether the text holds an interpolation.
pub open spec fn has_interpolation_spec(raw: Seq<char>) -> bool {
    exists|i: int| 0 <= i < raw.len() && #[trigger] interpolates_at_spec(raw, i)
}

/// Whether a single-quoted string's raw text carries any interpolation. A `$` followed by
/// anything else is a literal dollar sign.
pub fn has_interpolation(raw: &str) -> (r: bool)
    ensures
        r == has_interpolation_spec(raw@),
{
    let cs = chars_of(raw);
    let mut i: usize = 0;
    while i < cs.len()
        invariant
            i <= cs.len(),
            cs@ == raw@,
            forall|j: int| 0 <= j < i ==> !#[trigger] interpolates_at_spec(raw@, j),
        decreases cs.len() - i,
    {
        if interpolates_at(&cs, i) {
            return true;
        }
        i += 1;
    }
    false
}

/// A segment of an interpolated string: a literal run, or the source of an expression.
pub enum Seg {
    Lit(String),
    Code(String),
}

/// Mathematical model of [`Seg`].
#[allow(inconsistent_fields)]
pub enum SegV {
    Lit(Seq<char>),
    Code(Seq<char>),
}

impl Seg {
    /// The value with every string and list seen as a sequence.
    pub open spec fn v(self) -> SegV
    {
        match self {
            Seg::Lit(a) => SegV::Lit(a@),
            Seg::Code(a) => SegV::Code(a@),
        }
    }
}

/// The models of a list, element by element.
#[verifier::opaque]
pub open spec fn segs_v(s: Seq<Seg>) -> Seq<SegV> {
    Seq::new(s.len(), |i: int| s[i].v())
}

/// A list and its model are equally long.
pub broadcast proof fn segs_v_len(s: Seq<Seg>)
    ensures
        #[trigger] segs_v(s).len() == s.len(),
{
    reveal(segs_v);
}

/// The model of a list holds the models of its elements.
pub broadcast proof fn segs_v_index(s: Seq<Seg>, i: int)
    requires
        0 <= i < s.len(),
    ensures
        #[trigger] segs_v(s)[i] == s[i].v(),
{
    reveal(segs_v);
}

/// Appending to a list appends to its model.
pub broadcast proof fn segs_v_push(s: Seq<Seg>, x: Seg)
    ensures
        #[trigger] segs_v(s.push(x)) == segs_v(s).push(x.v()),
{
    reveal(segs_v);
    assert(segs_v(s.push(x)) =~= segs_v(s).push(x.v()));
}

/// An empty list has an empty model.
pub broadcast proof fn segs_v_empty()
    ensures
        #[trigger] segs_v(Seq::<Seg>::empty()) == Seq::<SegV>::empty(),
{
    reveal(segs_v);
    assert(segs_v(Seq::<Seg>::empty()) =~= Seq::<SegV>::empty());
}

/// The model of two lists put together.
pub broadcast proof fn segs_v_add(a: Seq<Seg>, b: Seq<Seg>)
    ensures
        #[trigger] segs_v(a + b) == segs_v(a) + segs_v(b),
{
    reveal(segs_v);
    assert(segs_v(a + b) =~= segs_v(a) + segs_v(b));
}

/// How models follow what they are models of.
pub broadcast group group_quote {
    segs_v_len,
    segs_v_index,
    segs_v_push,
    segs_v_empty,
    segs_v_add,
}

/// What [`same_escape`] computes.
pub open spec fn same_escape_spec(c: char) -> bool
{
    (c == 'n') || (c == 't') || (c == 'r') || (c == '\\') || (c == '"')
}

/// What [`escape_char`] computes.
pub open spec fn escape_char_spec(c: char) -> Seq<char>
{
    if c == '"' { "\\\""@ } else if c == '\\' { "\\\\"@ } else if c == '\n' { "\\n"@ } else if c == '\t' { "\\t"@ } else if c == '\r' { "\\r"@ } else { seq![c] }
}

/// What [`escape_from`] computes.
pub open spec fn escape_from_spec(cs: Seq<char>, i: int, out: Seq<char>) -> Seq<char>
    decreases cs.len() - i,
{
    if !(0 <= i < cs.len()) { out } else {
        let c = at_spec(cs, i, 0int);
        let n = at_spec(cs, i, 1int);
        if (c == '\\') && ((i + 1) < (cs.len())) {
            if same_escape_spec(n) {
                let out = out.push(c);
                let out = out.push(n);
                let i = i + 2;
                escape_from_spec(cs, i, out)
            } else if n == '\'' {
                let out = out.push(n);
                let i = i + 2;
                escape_from_spec(cs, i, out)
            } else if n == '0' {
                let out = out + "\\000"@;
                let i = i + 2;
                escape_from_spec(cs, i, out)
            } else if (n == 'x') && (is_hex_spec(at_spec(cs, i, 2int))) && (is_hex_spec(at_spec(cs, i, 3int))) {
                let out = out + (octal_escape_spec(((hex_value_spec(at_spec(cs, i, 2int))) * 16) + (hex_value_spec(at_spec(cs, i, 3int)))));
                let i = i + 4;
                escape_from_spec(cs, i, out)
            } else {
                let out = out + "\\\\"@;
                let i = i + 1;
                escape_from_spec(cs, i, out)
            }
        } else {
            let out = out + escape_char_spec(c);
            let i = i + 1;
            escape_from_spec(cs, i, out)
        }
    }
}

/// What [`escape_str`] computes.
#[verifier::opaque]
pub open spec fn escape_str_spec(s: Seq<char>) -> Seq<char>
{
    escape_from_spec(s, 0int, Seq::empty())
}

/// What [`quoted_cpp`] computes.
pub open spec fn quoted_cpp_spec(s: Seq<char>) -> Seq<char>
{
    "\""@ + escape_str_spec(s) + "\""@
}

/// What [`interpolates_at`] computes.
pub open spec fn interpolates_at_spec(cs: Seq<char>, i: int) -> bool
{
    (at_spec(cs, i, 0int) == '$') && ((at_spec(cs, i, 1int) == '{') || (is_alpha_spec(at_spec(cs, i, 1int))) || (at_spec(cs, i, 1int) == '_'))
}

} // verus!
