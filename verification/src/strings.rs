//! Prefixes, suffixes and pieces of texts.

use vstd::prelude::*;

use crate::lexer::{at, at_spec, cut, cut_spec};
use crate::text::{cat2, chars_of, text_of, texts};

verus! {

broadcast use {crate::text::group_texts};

/// Whether `s` begins with `p`.
pub fn starts_with(s: &str, p: &str) -> (r: bool)
    ensures
        r == p@.is_prefix_of(s@),
{
    let a = chars_of(s);
    let b = chars_of(p);
    if b.len() > a.len() {
        return false;
    }
    let mut i: usize = 0;
    while i < b.len()
        invariant
            i <= b.len() <= a.len(),
            a@ == s@,
            b@ == p@,
            forall|j: int| 0 <= j < i ==> a@[j] == b@[j],
        decreases b.len() - i,
    {
        if a[i] != b[i] {
            proof {
                assert(a@.subrange(0, b@.len() as int)[i as int] == a@[i as int]);
            }
            return false;
        }
        i += 1;
    }
    proof {
        assert(p@ =~= s@.subrange(0, p@.len() as int));
    }
    true
}

/// Whether `s` ends with `p`.
pub fn ends_with(s: &str, p: &str) -> (r: bool)
    ensures
        r == p@.is_suffix_of(s@),
{
    let a = chars_of(s);
    let b = chars_of(p);
    if b.len() > a.len() {
        return false;
    }
    let d: usize = a.len() - b.len();
    let mut i: usize = 0;
    while i < b.len()
        invariant
            i <= b.len() <= a.len(),
            a@ == s@,
            b@ == p@,
            d == a.len() - b.len(),
            forall|j: int| 0 <= j < i ==> a@[d + j] == b@[j],
        decreases b.len() - i,
    {
        if a[d + i] != b[i] {
            proof {
                assert(a@.subrange(d as int, a@.len() as int)[i as int] == a@[d + i]);
            }
            return false;
        }
        i += 1;
    }
    proof {
        assert(p@ =~= s@.subrange(d as int, s@.len() as int));
    }
    true
}

/// What stands between a prefix and a suffix of a text, where it has both.
pub open spec fn between_spec(s: Seq<char>, pre: Seq<char>, post: Seq<char>) -> Option<Seq<char>> {
    if pre.is_prefix_of(s) && post.is_suffix_of(s) && pre.len() + post.len() <= s.len() {
        Some(s.subrange(pre.len() as int, s.len() - post.len()))
    } else {
        None
    }
}

/// What stands between a prefix and a suffix of a text, where it has both.
pub fn between(s: &str, pre: &str, post: &str) -> (r: Option<String>)
    ensures
        (match r { Some(y) => Some(y@), None => None }) == between_spec(s@, pre@, post@),
{
    let cs = chars_of(s);
    let a: usize = chars_of(pre).len();
    let b: usize = chars_of(post).len();
    if starts_with(s, pre) && ends_with(s, post) && a <= cs.len() && b <= cs.len() - a {
        Some(text_of(&cs, a, cs.len() - b))
    } else {
        None
    }
}

/// Back over the stars before `b`.
pub fn stars_start(cs: &Vec<char>, b: usize) -> (r: usize)
    ensures
        (r as int) == stars_start_spec(cs@, (b as int)),
{
    let ghost b_0 = b;
    let mut b: usize = b;
    #[verifier::loop_isolation(false)]
    loop
        invariant
            stars_start_spec(cs@, (b_0 as int)) == stars_start_spec(cs@, (b as int)),
        decreases b,
    {
        if b > 0 && at(cs, b - 1, 0) == '*' {
            b = b - 1;
        } else {
            return b;
        }
    }
}

/// The text without the stars at its end.
pub fn no_stars(s: &str) -> (r: String)
    ensures
        r@ == no_stars_spec(s@),
{
    let cs = chars_of(s);
    cut(&cs, 0, stars_start(&cs, cs.len()))
}

/// The texts with a separator between them, from the one at `i` on.
pub fn join_from(v: &Vec<String>, sep: &str, i: usize, out: String) -> (r: String)
    ensures
        r@ == join_from_spec(texts(v@), sep@, (i as int), out@),
{
    let ghost i_0 = i;
    let ghost out_0 = out;
    let mut i: usize = i;
    let mut out: String = out;
    #[verifier::loop_isolation(false)]
    loop
        invariant
            join_from_spec(texts(v@), sep@, (i_0 as int), out_0@) == join_from_spec(texts(v@), sep@, (i as int), out@),
        decreases v.len() - i,
    {
        if i >= v.len() {
            return out;
        }
        if i > 0 {
            out.append(sep);
        }
        out.append(&v[i]);
        i = i + 1;
    }
}

/// The texts with a separator between them.
pub fn join(v: &Vec<String>, sep: &str) -> (r: String)
    ensures
        r@ == join_spec(texts(v@), sep@),
{
    join_from(v, sep, 0, String::new())
}

/// Where the first character like `c` stands from `i` on; the length where there is none.
pub fn find_char(cs: &Vec<char>, c: char, i: usize) -> (r: usize)
    ensures
        (r as int) == find_char_spec(cs@, c, (i as int)),
        i <= cs.len() ==> i <= r <= cs.len(),
        forall|k: int| i <= k < r ==> #[trigger] cs@[k] != c,
        r < cs.len() ==> cs@[r as int] == c,
{
    let ghost i_0 = i;
    let mut i: usize = i;
    #[verifier::loop_isolation(false)]
    loop
        invariant
            find_char_spec(cs@, c, (i_0 as int)) == find_char_spec(cs@, c, (i as int)),
            i_0 <= i,
            i_0 <= cs.len() ==> i <= cs.len(),
            forall|k: int| i_0 <= k < i ==> #[trigger] cs@[k] != c,
        decreases cs.len() - i,
    {
        if i < cs.len() && at(cs, i, 0) != c {
            i = i + 1;
        } else {
            return i;
        }
    }
}

/// The pieces of the text from `start` on between the characters like `c`.
pub fn split_from(cs: &Vec<char>, c: char, start: usize, out: Vec<String>) -> (r: Vec<String>)
    requires
        start <= cs.len(),
    ensures
        texts(r@) == split_from_spec(cs@, c, (start as int), texts(out@)),
{
    let ghost start_0 = start;
    let ghost out_0 = out;
    let mut start: usize = start;
    let mut out: Vec<String> = out;
    #[verifier::loop_isolation(false)]
    loop
        invariant
            split_from_spec(cs@, c, (start_0 as int), texts(out_0@)) == split_from_spec(cs@, c, (start as int), texts(out@)),
            start <= cs.len(),
        decreases cs.len() - start,
    {
        let e: usize = find_char(cs, c, start);
        out.push(cut(cs, start, e));
        if e >= cs.len() {
            return out;
        }
        start = e + 1;
    }
}

/// The pieces of the text between the characters like `c`.
pub fn split(s: &str, c: char) -> (r: Vec<String>)
    ensures
        texts(r@) == split_spec(s@, c),
{
    split_from(&chars_of(s), c, 0, Vec::new())
}

/// The text before and after the first `sep`, where it holds one.
pub fn split_once_from(cs: &Vec<char>, sep: &Vec<char>, i: usize) -> (r: Option<(String, String)>)
    ensures
        (match r { Some(y) => Some((y.0@, y.1@)), None => None }) == split_once_from_spec(cs@, sep@, (i as int)),
{
    let ghost i_0 = i;
    let mut i: usize = i;
    #[verifier::loop_isolation(false)]
    loop
        invariant
            split_once_from_spec(cs@, sep@, (i_0 as int)) == split_once_from_spec(cs@, sep@, (i as int)),
        decreases cs.len() - i,
    {
        if i >= cs.len() || sep.len() > cs.len() - i {
            return None;
        }
        if matches_at(cs, sep, i, 0) {
            return Some((cut(cs, 0, i), cut(cs, i + sep.len(), cs.len())));
        }
        i = i + 1;
    }
}

/// Whether the text at `i` goes on like `p` from its place `j`.
pub fn matches_at(cs: &Vec<char>, p: &Vec<char>, i: usize, j: usize) -> (r: bool)
    requires
        i <= cs.len(),
        p.len() <= cs.len() - i,
    ensures
        r == matches_at_spec(cs@, p@, (i as int), (j as int)),
{
    let ghost j_0 = j;
    let mut j: usize = j;
    #[verifier::loop_isolation(false)]
    loop
        invariant
            matches_at_spec(cs@, p@, (i as int), (j_0 as int)) == matches_at_spec(cs@, p@, (i as int), (j as int)),
        decreases p.len() - j,
    {
        if j >= p.len() {
            return true;
        }
        if at(cs, i + j, 0) != at(p, j, 0) {
            return false;
        }
        j = j + 1;
    }
}

/// The text before and after the first `sep`, where it holds one.
pub fn split_once(s: &str, sep: &str) -> (r: Option<(String, String)>)
    ensures
        (match r { Some(y) => Some((y.0@, y.1@)), None => None }) == split_once_spec(s@, sep@),
{
    split_once_from(&chars_of(s), &chars_of(sep), 0)
}

/// The text up to the first `sep`.
pub fn before(s: &str, sep: &str) -> (r: String)
    ensures
        r@ == before_spec(s@, sep@),
{
    match split_once(s, sep) {
        Some((a, _)) => a,
        None => s.to_owned(),
    }
}

/// The uppercase form of a text.
pub uninterp spec fn upper(s: Seq<char>) -> Seq<char>;

/// `str::to_uppercase`: a function of the text alone, named [`upper`]. The mapping
/// itself (Unicode's) is not stated.
#[verifier::external_body]
pub(crate) fn to_upper(s: &str) -> (r: String)
    ensures
        r@ == upper(s@),
{
    s.to_uppercase()
}

/// The uppercase form of a character.
pub uninterp spec fn upper_char(c: char) -> Seq<char>;

/// `char::to_uppercase`: a function of the character alone, named [`upper_char`]. The
/// mapping itself (Unicode's) is not stated.
#[verifier::external_body]
fn to_upper_char(c: char) -> (r: String)
    ensures
        r@ == upper_char(c),
{
    c.to_uppercase().to_string()
}

/// The text with its first character in upper case.
pub fn cap(s: &str) -> (r: String)
    ensures
        r@ == cap_spec(s@),
{
    let cs = chars_of(s);
    if cs.len() == 0 {
        String::new()
    } else {
        cat2(&to_upper_char(at(&cs, 0, 0)), &cut(&cs, 1, cs.len()))
    }
}

/// What [`stars_start`] computes.
pub open spec fn stars_start_spec(cs: Seq<char>, b: int) -> int
    decreases b,
{
    if (b > 0) && (at_spec(cs, b - 1, 0int) == '*') {
        let b = b - 1;
        stars_start_spec(cs, b)
    } else { b }
}

/// What [`no_stars`] computes.
pub open spec fn no_stars_spec(s: Seq<char>) -> Seq<char>
{
    let cs = s;
    cut_spec(cs, 0int, stars_start_spec(cs, cs.len() as int))
}

/// What [`join_from`] computes.
pub open spec fn join_from_spec(v: Seq<Seq<char>>, sep: Seq<char>, i: int, out: Seq<char>) -> Seq<char>
    decreases v.len() - i,
{
    if !(0 <= i < v.len()) { out } else {
        let out = if i > 0 {
            let out = out + sep;
            out
        } else { out };
        let out = out + (v[i]);
        let i = i + 1;
        join_from_spec(v, sep, i, out)
    }
}

/// What [`join`] computes.
pub open spec fn join_spec(v: Seq<Seq<char>>, sep: Seq<char>) -> Seq<char>
{
    join_from_spec(v, sep, 0int, Seq::empty())
}

/// What [`find_char`] computes.
pub open spec fn find_char_spec(cs: Seq<char>, c: char, i: int) -> int
    decreases cs.len() - i,
{
    if (i < (cs.len())) && (at_spec(cs, i, 0int) != c) {
        let i = i + 1;
        find_char_spec(cs, c, i)
    } else { i }
}

/// What [`split_from`] computes.
pub open spec fn split_from_spec(cs: Seq<char>, c: char, start: int, out: Seq<Seq<char>>) -> Seq<Seq<char>>
    decreases cs.len() - start,
{
    let e: int = find_char_spec(cs, c, start);
    let out = out.push(cut_spec(cs, start, e));
    if !((start <= e) && (e <= (cs.len()))) { arbitrary() } else {
        if !(0 <= e < cs.len()) { out } else {
            let start = e + 1;
            split_from_spec(cs, c, start, out)
        }
    }
}

/// What [`split`] computes.
pub open spec fn split_spec(s: Seq<char>, c: char) -> Seq<Seq<char>>
{
    split_from_spec(s, c, 0int, Seq::empty())
}

/// What [`split_once_from`] computes.
pub open spec fn split_once_from_spec(cs: Seq<char>, sep: Seq<char>, i: int) -> Option<(Seq<char>, Seq<char>)>
    decreases cs.len() - i,
{
    if !(0 <= i < cs.len()) || ((sep.len()) > ((cs.len()) - i)) { None } else {
        if matches_at_spec(cs, sep, i, 0int) { Some((cut_spec(cs, 0int, i), cut_spec(cs, i + (sep.len()), cs.len() as int))) } else {
            let i = i + 1;
            split_once_from_spec(cs, sep, i)
        }
    }
}

/// What [`matches_at`] computes.
pub open spec fn matches_at_spec(cs: Seq<char>, p: Seq<char>, i: int, j: int) -> bool
    decreases p.len() - j,
{
    if !(0 <= j < p.len()) { true } else {
        if at_spec(cs, i + j, 0int) != at_spec(p, j, 0int) { false } else {
            let j = j + 1;
            matches_at_spec(cs, p, i, j)
        }
    }
}

/// What [`split_once`] computes.
pub open spec fn split_once_spec(s: Seq<char>, sep: Seq<char>) -> Option<(Seq<char>, Seq<char>)>
{
    split_once_from_spec(s, sep, 0int)
}

/// What [`before`] computes.
pub open spec fn before_spec(s: Seq<char>, sep: Seq<char>) -> Seq<char>
{
    match split_once_spec(s, sep) {
        Some((a, _)) => { a },
        None => { s },
    }
}

/// What [`cap`] computes.
pub open spec fn cap_spec(s: Seq<char>) -> Seq<char>
{
    let cs = s;
    if (cs.len()) == 0 { Seq::empty() } else { (upper_char(at_spec(cs, 0int, 0int))) + (cut_spec(cs, 1int, cs.len() as int)) }
}

} // verus!
