//! The token model that all grammars and generators work on.
//!
//! A macro invocation is a flat sequence of tokens: identifiers, literals,
//! punctuation characters and open/close delimiters.  A punctuation token
//! carries a `joint` flag meaning that it is glued to the following token
//! with no space in between, so that multi-character operators such as `..`
//! and `::` can be told apart from `. .` and `: :`.  Delimiters are assumed
//! to be properly nested, as they always are in a token stream produced by a
//! lexer; the scanners match any closing delimiter against any opening one.

use vstd::prelude::*;
use vstd::string::StringExecFns;

verus! {

/// The three delimiter shapes a group can have.
#[derive(Clone, Copy, PartialEq, Eq, Structural, Debug)]
pub enum Delim {
    Paren,
    Bracket,
    Brace,
}

/// One token of the surface language.
#[derive(PartialEq, Eq, Debug)]
pub enum Tok {
    /// An identifier or keyword.
    Ident(String),
    /// A literal (number, string, char), carried opaquely.
    Lit(String),
    /// A punctuation character; the flag is true when the character is
    /// joined to the next token (`::`, `..`, `->`).
    Punct(char, bool),
    /// An opening delimiter.
    Open(Delim),
    /// A closing delimiter.
    Close(Delim),
}

/// The mathematical value of a token: identifier and literal text as
/// character sequences.
pub enum TokV {
    Ident(Seq<char>),
    Lit(Seq<char>),
    Punct(char, bool),
    Open(Delim),
    Close(Delim),
}

impl View for Tok {
    type V = TokV;

    open spec fn view(&self) -> TokV {
        match self {
            Tok::Ident(s) => TokV::Ident(s@),
            Tok::Lit(s) => TokV::Lit(s@),
            Tok::Punct(c, j) => TokV::Punct(*c, *j),
            Tok::Open(d) => TokV::Open(*d),
            Tok::Close(d) => TokV::Close(*d),
        }
    }
}

impl DeepView for Tok {
    type V = TokV;

    open spec fn deep_view(&self) -> TokV {
        self.view()
    }
}

/// The view of a token sequence.
pub open spec fn tv(ts: Seq<Tok>) -> Seq<TokV> {
    Seq::new(ts.len(), |i: int| ts[i]@)
}

pub proof fn lemma_tv_add(a: Seq<Tok>, b: Seq<Tok>)
    ensures
        tv(a + b) == tv(a) + tv(b),
{
    assert(tv(a + b) =~= tv(a) + tv(b));
}

pub proof fn lemma_tv_push(a: Seq<Tok>, t: Tok)
    ensures
        tv(a.push(t)) == tv(a).push(t@),
{
    assert(tv(a.push(t)) =~= tv(a).push(t@));
}

/// The view of a sequence of token vectors.
pub open spec fn tvs(a: Seq<Vec<Tok>>) -> Seq<Seq<TokV>> {
    Seq::new(a.len(), |i: int| tv(a[i]@))
}

/// The element-wise view of a sequence of viewable values.
pub open spec fn views<T: View>(s: Seq<T>) -> Seq<T::V> {
    Seq::new(s.len(), |i: int| s[i]@)
}

pub proof fn lemma_views_push<T: View>(s: Seq<T>, t: T)
    ensures
        views(s.push(t)) == views(s).push(t@),
{
    assert(views(s.push(t)) =~= views(s).push(t@));
}

/// A copy of the tokens in `[a, b)`.
pub fn copy_range(ts: &Vec<Tok>, a: usize, b: usize) -> (r: Vec<Tok>)
    requires
        a <= b <= ts.len(),
    ensures
        tv(r@) == tv(ts@).subrange(a as int, b as int),
{
    let mut r: Vec<Tok> = Vec::new();
    let mut i: usize = a;
    proof {
        assert(tv(r@) =~= tv(ts@).subrange(a as int, a as int));
    }
    while i < b
        invariant
            a <= i <= b <= ts.len(),
            tv(r@) == tv(ts@).subrange(a as int, i as int),
        decreases b - i,
    {
        let t = tok_clone(&ts[i]);
        let ghost tg = t;
        let ghost r0 = r@;
        r.push(t);
        proof {
            lemma_tv_push(r0, tg);
            assert(tv(ts@).subrange(a as int, i as int + 1) =~= tv(ts@).subrange(
                a as int,
                i as int,
            ).push(tv(ts@)[i as int]));
        }
        i = i + 1;
    }
    r
}

/// Whether a token is a given punctuation character, joined or not.
pub open spec fn is_punct_v(t: TokV, c: char) -> bool {
    t matches TokV::Punct(cc, _) && cc == c
}

/// String slice equality, decided through owned-string comparison.
pub fn str_eq(a: &str, b: &str) -> (r: bool)
    ensures
        r == (a@ == b@),
{
    let x: String = a.to_owned();
    let y: String = b.to_owned();
    x == y
}

/// A copy of a token with the same view.
pub fn tok_clone(t: &Tok) -> (r: Tok)
    ensures
        r@ == t@,
{
    match t {
        Tok::Ident(s) => Tok::Ident(s.clone()),
        Tok::Lit(s) => Tok::Lit(s.clone()),
        Tok::Punct(c, j) => Tok::Punct(*c, *j),
        Tok::Open(d) => Tok::Open(*d),
        Tok::Close(d) => Tok::Close(*d),
    }
}

/// A copy of a token sequence with the same view.
pub fn toks_clone(ts: &Vec<Tok>) -> (r: Vec<Tok>)
    ensures
        tv(r@) == tv(ts@),
{
    let mut r: Vec<Tok> = Vec::new();
    let mut i: usize = 0;
    proof {
        assert(tv(r@) =~= tv(ts@.subrange(0, 0)));
    }
    while i < ts.len()
        invariant
            i <= ts.len(),
            tv(r@) == tv(ts@.subrange(0, i as int)),
        decreases ts.len() - i,
    {
        let t = tok_clone(&ts[i]);
        let ghost tg = t;
        let ghost r0 = r@;
        r.push(t);
        proof {
            lemma_tv_push(r0, tg);
            assert(ts@.subrange(0, i as int + 1) =~= ts@.subrange(0, i as int).push(
                ts@[i as int],
            ));
            lemma_tv_push(ts@.subrange(0, i as int), ts@[i as int]);
        }
        i = i + 1;
    }
    proof {
        assert(ts@.subrange(0, ts@.len() as int) =~= ts@);
    }
    r
}

/// Appends a copy of `src` to `out`.
pub fn append_copy(out: &mut Vec<Tok>, src: &Vec<Tok>)
    ensures
        tv(final(out)@) == tv(old(out)@) + tv(src@),
{
    let mut i: usize = 0;
    proof {
        assert(tv(src@.subrange(0, 0)) =~= Seq::<TokV>::empty());
        assert(tv(out@) =~= tv(out@) + tv(src@.subrange(0, 0)));
    }
    while i < src.len()
        invariant
            i <= src.len(),
            tv(out@) == tv(old(out)@) + tv(src@.subrange(0, i as int)),
        decreases src.len() - i,
    {
        let t = tok_clone(&src[i]);
        let ghost tg = t;
        let ghost o0 = out@;
        out.push(t);
        proof {
            lemma_tv_push(o0, tg);
            assert(src@.subrange(0, i as int + 1) =~= src@.subrange(0, i as int).push(
                src@[i as int],
            ));
            lemma_tv_push(src@.subrange(0, i as int), src@[i as int]);
            assert(tv(old(out)@) + tv(src@.subrange(0, i as int)).push(src@[i as int]@) =~= tv(
                old(out)@,
            ) + tv(src@.subrange(0, i as int + 1)));
        }
        i = i + 1;
    }
    proof {
        assert(src@.subrange(0, src@.len() as int) =~= src@);
    }
}

/// Pushes one token, tracked at the view level.
pub fn push_tok(out: &mut Vec<Tok>, t: Tok)
    ensures
        tv(final(out)@) == tv(old(out)@).push(t@),
{
    let ghost tg = t;
    let ghost o0 = out@;
    out.push(t);
    proof {
        lemma_tv_push(o0, tg);
    }
}

/// Appends an owned token vector, tracked at the view level.
pub fn append_owned(out: &mut Vec<Tok>, src: Vec<Tok>)
    ensures
        tv(final(out)@) == tv(old(out)@) + tv(src@),
{
    let ghost o0 = out@;
    let ghost s0 = src@;
    let mut s = src;
    out.append(&mut s);
    proof {
        lemma_tv_add(o0, s0);
    }
}

/// Whether the token is an identifier.
pub fn is_ident(t: &Tok) -> (r: bool)
    ensures
        r == (t@ is Ident),
{
    match t {
        Tok::Ident(_) => true,
        _ => false,
    }
}

/// Whether the token is exactly the identifier `kw`.
pub fn ident_is(t: &Tok, kw: &str) -> (r: bool)
    ensures
        r == (t@ == TokV::Ident(kw@)),
{
    match t {
        Tok::Ident(s) => str_eq(s.as_str(), kw),
        _ => false,
    }
}

/// Whether the token is the punctuation character `c`, joined or not.
pub fn is_punct(t: &Tok, c: char) -> (r: bool)
    ensures
        r == is_punct_v(t@, c),
{
    match t {
        Tok::Punct(cc, _) => *cc == c,
        _ => false,
    }
}

/// Whether the token is the punctuation character `c` with the joint flag.
pub fn is_joint_punct(t: &Tok, c: char) -> (r: bool)
    ensures
        r == (t@ == TokV::Punct(c, true)),
{
    match t {
        Tok::Punct(cc, j) => *cc == c && *j,
        _ => false,
    }
}

/// Whether the token opens a group with delimiter `d`.
pub fn is_open(t: &Tok, d: Delim) -> (r: bool)
    ensures
        r == (t@ == TokV::Open(d)),
{
    match t {
        Tok::Open(dd) => *dd == d,
        _ => false,
    }
}

/// Whether the token opens any group.
pub fn is_open_any(t: &Tok) -> (r: bool)
    ensures
        r == (t@ is Open),
{
    match t {
        Tok::Open(_) => true,
        _ => false,
    }
}

/// Whether the token closes any group.
pub fn is_close_any(t: &Tok) -> (r: bool)
    ensures
        r == (t@ is Close),
{
    match t {
        Tok::Close(_) => true,
        _ => false,
    }
}

/// An identifier token with the given text.
pub fn t_ident(s: &str) -> (r: Tok)
    ensures
        r@ == TokV::Ident(s@),
{
    Tok::Ident(s.to_owned())
}

/// A lone punctuation token.
pub fn t_punct(c: char) -> (r: Tok)
    ensures
        r@ == TokV::Punct(c, false),
{
    Tok::Punct(c, false)
}

/// A joint punctuation token.
pub fn t_joint(c: char) -> (r: Tok)
    ensures
        r@ == TokV::Punct(c, true),
{
    Tok::Punct(c, true)
}

/// The decimal digit character for `d` in 0..=9.
pub open spec fn dec_digit(d: int) -> char {
    if d == 0 {
        '0'
    } else if d == 1 {
        '1'
    } else if d == 2 {
        '2'
    } else if d == 3 {
        '3'
    } else if d == 4 {
        '4'
    } else if d == 5 {
        '5'
    } else if d == 6 {
        '6'
    } else if d == 7 {
        '7'
    } else if d == 8 {
        '8'
    } else {
        '9'
    }
}

/// The decimal rendering of `n`, most significant digit first.
pub open spec fn dec_chars(n: nat) -> Seq<char>
    decreases n,
{
    if n < 10 {
        seq![dec_digit(n as int)]
    } else {
        dec_chars(n / 10).push(dec_digit((n % 10) as int))
    }
}

fn digit_str(d: usize) -> (r: &'static str)
    requires
        d < 10,
    ensures
        r@ == seq![dec_digit(d as int)],
{
    let r: &'static str = if d == 0 {
        "0"
    } else if d == 1 {
        "1"
    } else if d == 2 {
        "2"
    } else if d == 3 {
        "3"
    } else if d == 4 {
        "4"
    } else if d == 5 {
        "5"
    } else if d == 6 {
        "6"
    } else if d == 7 {
        "7"
    } else if d == 8 {
        "8"
    } else {
        "9"
    };
    proof {
        reveal_strlit("0");
        reveal_strlit("1");
        reveal_strlit("2");
        reveal_strlit("3");
        reveal_strlit("4");
        reveal_strlit("5");
        reveal_strlit("6");
        reveal_strlit("7");
        reveal_strlit("8");
        reveal_strlit("9");
        assert(r@ =~= seq![dec_digit(d as int)]);
    }
    r
}

/// The decimal rendering of `n` as a string.
pub fn dec_string(n: usize) -> (r: String)
    ensures
        r@ == dec_chars(n as nat),
    decreases n,
{
    if n < 10 {
        digit_str(n).to_owned()
    } else {
        let mut s = dec_string(n / 10);
        s.append(digit_str(n % 10));
        proof {
            assert(s@ =~= dec_chars(n as nat));
        }
        s
    }
}

} // verus!
