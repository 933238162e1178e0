//! The field-subset assertion generator.
//!
//! Two forms are accepted after the primary expression and a comma: a
//! second expression, a comma and a bracketed non-empty field-name list;
//! or a braced anonymous-value construction whose field names are
//! inferred.  Either form may be followed by a comma and extra diagnostic
//! arguments, forwarded to the equality check.
//!
//! The expansion builds an ephemeral wrapper type `Fields` holding a
//! reference to each listed field of both sides and asserts equality of
//! the two wrapper values, so unrelated fields take no part in the
//! comparison or in its failure output.

use vstd::prelude::*;

use crate::anon::{collect_names, sp_anon_ast, sp_anon_names, sp_anon_render, Anon, AnonV};
use crate::common::{ident_of, ident_text};
use crate::diag::{diag, mk_diag, Diag, DiagKind};
use crate::scan::{expr_end, scan_close, sp_expr_end, sp_scan_close};
use crate::token::{append_copy, append_owned, copy_range, is_ident, is_open, is_punct,
    is_punct_v, push_tok, t_ident, t_joint, t_punct, tv, views, Delim, Tok, TokV};

verus! {

/// A parsed field-subset assertion.
#[derive(Debug, PartialEq, Eq)]
pub enum AssertFieldsEq {
    /// `left , right , [ fields ] (, extra)?`
    List { left: Vec<Tok>, right: Vec<Tok>, fields: Vec<String>, fmt_args: Vec<Tok> },
    /// `left , { anonymous items } (, extra)?`
    Anon { left: Vec<Tok>, anon: Anon, fmt_args: Vec<Tok> },
}

/// The mathematical value of a field-subset assertion.
pub enum AssertFieldsEqV {
    List { left: Seq<TokV>, right: Seq<TokV>, fields: Seq<Seq<char>>, fmt_args: Seq<TokV> },
    Anon { left: Seq<TokV>, anon: AnonV, fmt_args: Seq<TokV> },
}

impl View for AssertFieldsEq {
    type V = AssertFieldsEqV;

    open spec fn view(&self) -> AssertFieldsEqV {
        match self {
            AssertFieldsEq::List { left, right, fields, fmt_args } => AssertFieldsEqV::List {
                left: tv(left@),
                right: tv(right@),
                fields: views(fields@),
                fmt_args: tv(fmt_args@),
            },
            AssertFieldsEq::Anon { left, anon, fmt_args } => AssertFieldsEqV::Anon {
                left: tv(left@),
                anon: anon@,
                fmt_args: tv(fmt_args@),
            },
        }
    }
}

/// The extra diagnostic arguments after the form: nothing, or a comma and
/// the rest of the input, kept with the comma for forwarding.
pub open spec fn sp_fmt_tail(s: Seq<TokV>, i: int) -> Result<Seq<TokV>, Diag> {
    if i >= s.len() {
        Ok(Seq::empty())
    } else if is_punct_v(s[i], ',') {
        Ok(s.subrange(i, s.len() as int))
    } else {
        Err(diag(DiagKind::ExpectedComma, i))
    }
}

/// Executable counterpart of [`sp_fmt_tail`].
fn parse_fmt_tail(toks: &Vec<Tok>, i: usize) -> (r: Result<Vec<Tok>, Diag>)
    requires
        i <= toks.len(),
    ensures
        match r {
            Ok(t) => sp_fmt_tail(tv(toks@), i as int) == Ok::<Seq<TokV>, Diag>(tv(t@)),
            Err(e) => sp_fmt_tail(tv(toks@), i as int) == Err::<Seq<TokV>, Diag>(e),
        },
{
    if i >= toks.len() {
        let out: Vec<Tok> = Vec::new();
        proof {
            assert(tv(out@) =~= Seq::<TokV>::empty());
        }
        Ok(out)
    } else if is_punct(&toks[i], ',') {
        Ok(copy_range(toks, i, toks.len()))
    } else {
        Err(mk_diag(DiagKind::ExpectedComma, i))
    }
}

/// A comma-separated identifier list filling `[i, end)`, with an optional
/// trailing comma.
pub open spec fn sp_ident_list(s: Seq<TokV>, i: int, end: int) -> Result<Seq<Seq<char>>, Diag>
    decreases end - i,
{
    if i >= end {
        Ok(Seq::empty())
    } else if !(s[i] is Ident) {
        Err(diag(DiagKind::ExpectedName, i))
    } else if i + 1 >= end {
        Ok(seq![ident_of(s[i])])
    } else if is_punct_v(s[i + 1], ',') {
        match sp_ident_list(s, i + 2, end) {
            Err(e) => Err(e),
            Ok(rest) => Ok(seq![ident_of(s[i])] + rest),
        }
    } else {
        Err(diag(DiagKind::ExpectedComma, i + 1))
    }
}

/// Executable counterpart of [`sp_ident_list`].
fn parse_ident_list(toks: &Vec<Tok>, i: usize, end: usize) -> (r: Result<Vec<String>, Diag>)
    requires
        end <= toks.len(),
    ensures
        match r {
            Ok(ns) => sp_ident_list(tv(toks@), i as int, end as int) == Ok::<Seq<Seq<char>>,
                Diag>(views(ns@)),
            Err(e) => sp_ident_list(tv(toks@), i as int, end as int) == Err::<Seq<Seq<char>>,
                Diag>(e),
        },
    decreases end - i,
{
    if i >= end {
        proof {
            assert(views(Seq::<String>::empty()) =~= Seq::<Seq<char>>::empty());
        }
        Ok(Vec::new())
    } else if !is_ident(&toks[i]) {
        Err(mk_diag(DiagKind::ExpectedName, i))
    } else if i + 1 >= end {
        let nm = ident_text(&toks[i]);
        let ghost ng = nm@;
        let mut out: Vec<String> = Vec::new();
        out.push(nm);
        proof {
            assert(views(out@) =~= seq![ng]);
        }
        Ok(out)
    } else if is_punct(&toks[i + 1], ',') {
        match parse_ident_list(toks, i + 2, end) {
            Err(e) => Err(e),
            Ok(mut rest) => {
                let nm = ident_text(&toks[i]);
                let ghost ng = nm@;
                let ghost restg = rest@;
                let mut out: Vec<String> = Vec::new();
                out.push(nm);
                out.append(&mut rest);
                proof {
                    assert(views(out@) =~= seq![ng] + views(restg));
                }
                Ok(out)
            },
        }
    } else {
        Err(mk_diag(DiagKind::ExpectedComma, i + 1))
    }
}

/// What the field-subset assertion grammar accepts: the primary
/// expression, a comma, then either a braced anonymous-value form or a
/// second expression with a bracketed non-empty field list, and finally
/// the optional extra arguments.
pub open spec fn sp_afe_ast(s: Seq<TokV>) -> Result<AssertFieldsEqV, Diag> {
    let lend = sp_expr_end(s, 0, 0);
    if lend == 0 {
        Err(diag(DiagKind::ExpectedExpr, 0))
    } else {
        let left = s.subrange(0, lend);
        if !(lend < s.len() && is_punct_v(s[lend], ',')) {
            Err(diag(DiagKind::ExpectedComma, lend))
        } else {
            let i = lend + 1;
            if i < s.len() && s[i] == TokV::Open(Delim::Brace) {
                match sp_scan_close(s, i + 1, 0) {
                    None => Err(diag(DiagKind::UnclosedGroup, i)),
                    Some(close) => match sp_anon_ast(s, i + 1, close) {
                        Err(e) => Err(e),
                        Ok(a) => match sp_fmt_tail(s, close + 1) {
                            Err(e) => Err(e),
                            Ok(fmt) => Ok(
                                AssertFieldsEqV::Anon { left, anon: a, fmt_args: fmt },
                            ),
                        },
                    },
                }
            } else if i < s.len() && s[i] is Ident {
                let rend = sp_expr_end(s, i, 0);
                let right = s.subrange(i, rend);
                if !(rend < s.len() && is_punct_v(s[rend], ',')) {
                    Err(diag(DiagKind::ExpectedComma, rend))
                } else {
                    let b = rend + 1;
                    if !(b < s.len() && s[b] == TokV::Open(Delim::Bracket)) {
                        Err(diag(DiagKind::ExpectedBracket, b))
                    } else {
                        match sp_scan_close(s, b + 1, 0) {
                            None => Err(diag(DiagKind::UnclosedGroup, b)),
                            Some(close) => match sp_ident_list(s, b + 1, close) {
                                Err(e) => Err(e),
                                Ok(fields) => if fields.len() == 0 {
                                    Err(diag(DiagKind::EmptyFields, b))
                                } else {
                                    match sp_fmt_tail(s, close + 1) {
                                        Err(e) => Err(e),
                                        Ok(fmt) => Ok(
                                            AssertFieldsEqV::List {
                                                left,
                                                right,
                                                fields,
                                                fmt_args: fmt,
                                            },
                                        ),
                                    }
                                },
                            },
                        }
                    }
                }
            } else {
                Err(diag(DiagKind::ExpectedName, i))
            }
        }
    }
}

/// The `#[allow(non_camel_case_types)]` attribute on the wrapper type,
/// whose type parameters are named like the fields.
pub open spec fn sp_allow_attr() -> Seq<TokV> {
    seq![
        TokV::Punct('#', false),
        TokV::Open(Delim::Bracket),
        TokV::Ident("allow"@),
        TokV::Open(Delim::Paren),
        TokV::Ident("non_camel_case_types"@),
        TokV::Close(Delim::Paren),
        TokV::Close(Delim::Bracket),
    ]
}

/// The derive attribute on the wrapper type: comparison and printing.
pub open spec fn sp_wrapper_derive() -> Seq<TokV> {
    seq![
        TokV::Punct('#', false),
        TokV::Open(Delim::Bracket),
        TokV::Ident("derive"@),
        TokV::Open(Delim::Paren),
        TokV::Ident("Debug"@),
        TokV::Punct(',', false),
        TokV::Ident("PartialEq"@),
        TokV::Punct(',', false),
        TokV::Ident("Eq"@),
        TokV::Close(Delim::Paren),
        TokV::Close(Delim::Bracket),
    ]
}

/// The first `n` type parameters of the wrapper, one per listed field,
/// each followed by a comma.
pub open spec fn sp_wrapper_params(names: Seq<Seq<char>>, n: int) -> Seq<TokV>
    decreases n,
{
    if n <= 0 {
        Seq::empty()
    } else {
        sp_wrapper_params(names, n - 1) + seq![TokV::Ident(names[n - 1]), TokV::Punct(',', false)]
    }
}

/// The first `n` stored fields of the wrapper, each a reference
/// `name : & 'a name ,`.
pub open spec fn sp_wrapper_fields(names: Seq<Seq<char>>, n: int) -> Seq<TokV>
    decreases n,
{
    if n <= 0 {
        Seq::empty()
    } else {
        sp_wrapper_fields(names, n - 1) + seq![
            TokV::Ident(names[n - 1]),
            TokV::Punct(':', false),
            TokV::Punct('&', false),
            TokV::Punct('\'', true),
            TokV::Ident("a"@),
            TokV::Ident(names[n - 1]),
            TokV::Punct(',', false),
        ]
    }
}

/// The declaration of the ephemeral wrapper type: one lifetime, one type
/// parameter and one reference field per listed name, nothing else.
pub open spec fn sp_wrapper_decl(names: Seq<Seq<char>>) -> Seq<TokV> {
    sp_allow_attr() + sp_wrapper_derive() + seq![
        TokV::Ident("struct"@),
        TokV::Ident("Fields"@),
        TokV::Punct('<', false),
        TokV::Punct('\'', true),
        TokV::Ident("a"@),
        TokV::Punct(',', false),
    ] + sp_wrapper_params(names, names.len() as int) + seq![
        TokV::Punct('>', false),
        TokV::Open(Delim::Brace),
    ] + sp_wrapper_fields(names, names.len() as int) + seq![TokV::Close(Delim::Brace)]
}

/// `let side = & value ;`
pub open spec fn sp_side_bind(side: Seq<char>, value: Seq<TokV>) -> Seq<TokV> {
    seq![TokV::Ident("let"@), TokV::Ident(side), TokV::Punct('=', false), TokV::Punct('&', false)]
        + value + seq![TokV::Punct(';', false)]
}

/// The first `n` projections `name : & ( side . name ) ,` of a wrapper
/// value.
pub open spec fn sp_side_fields(side: Seq<char>, names: Seq<Seq<char>>, n: int) -> Seq<TokV>
    decreases n,
{
    if n <= 0 {
        Seq::empty()
    } else {
        sp_side_fields(side, names, n - 1) + seq![
            TokV::Ident(names[n - 1]),
            TokV::Punct(':', false),
            TokV::Punct('&', false),
            TokV::Open(Delim::Paren),
            TokV::Ident(side),
            TokV::Punct('.', false),
            TokV::Ident(names[n - 1]),
            TokV::Close(Delim::Paren),
            TokV::Punct(',', false),
        ]
    }
}

/// `let side = Fields { projections } ;`
pub open spec fn sp_side_wrapper(side: Seq<char>, names: Seq<Seq<char>>) -> Seq<TokV> {
    seq![
        TokV::Ident("let"@),
        TokV::Ident(side),
        TokV::Punct('=', false),
        TokV::Ident("Fields"@),
        TokV::Open(Delim::Brace),
    ] + sp_side_fields(side, names, names.len() as int) + seq![
        TokV::Close(Delim::Brace),
        TokV::Punct(';', false),
    ]
}

/// `assert_eq ! ( left , right <extra> ) ;` — the in-scope equality
/// assertion, with the extra arguments forwarded.
pub open spec fn sp_assert_call(fmt_args: Seq<TokV>) -> Seq<TokV> {
    seq![
        TokV::Ident("assert_eq"@),
        TokV::Punct('!', false),
        TokV::Open(Delim::Paren),
        TokV::Ident("left"@),
        TokV::Punct(',', false),
        TokV::Ident("right"@),
    ] + fmt_args + seq![TokV::Close(Delim::Paren), TokV::Punct(';', false)]
}

/// The comparison block shared by both forms, once the right side is in
/// scope under the name `right`: the wrapper declaration, the two bound
/// sides, their wrapper values over exactly the listed names, and the
/// assertion.
pub open spec fn sp_compare_block(
    left: Seq<TokV>,
    right: Seq<TokV>,
    names: Seq<Seq<char>>,
    fmt_args: Seq<TokV>,
) -> Seq<TokV> {
    sp_wrapper_decl(names) + sp_side_bind("left"@, left) + sp_side_wrapper("left"@, names)
        + sp_side_bind("right"@, right) + sp_side_wrapper("right"@, names) + sp_assert_call(
        fmt_args,
    )
}

/// The full expansion.
pub open spec fn sp_afe_render(a: AssertFieldsEqV) -> Seq<TokV> {
    match a {
        AssertFieldsEqV::List { left, right, fields, fmt_args } => seq![TokV::Open(Delim::Brace)]
            + sp_compare_block(left, right, fields, fmt_args) + seq![TokV::Close(Delim::Brace)],
        AssertFieldsEqV::Anon { left, anon, fmt_args } => seq![
            TokV::Open(Delim::Brace),
            TokV::Ident("let"@),
            TokV::Ident("right"@),
            TokV::Punct('=', false),
        ] + sp_anon_render(anon) + seq![TokV::Punct(';', false)] + sp_compare_block(
            left,
            seq![TokV::Ident("right"@)],
            sp_anon_names(anon.items),
            fmt_args,
        ) + seq![TokV::Close(Delim::Brace)],
    }
}

/// What the field-subset assertion generator returns on every input.
pub open spec fn sp_assert_fields_eq(s: Seq<TokV>) -> Result<Seq<TokV>, Diag> {
    match sp_afe_ast(s) {
        Ok(a) => Ok(sp_afe_render(a)),
        Err(e) => Err(e),
    }
}

impl AssertFieldsEq {
    /// Parses a field-subset assertion filling the whole input.
    pub fn parse(toks: &Vec<Tok>) -> (r: Result<AssertFieldsEq, Diag>)
        ensures
            match r {
                Ok(a) => sp_afe_ast(tv(toks@)) == Ok::<AssertFieldsEqV, Diag>(a@),
                Err(e) => sp_afe_ast(tv(toks@)) == Err::<AssertFieldsEqV, Diag>(e),
            },
    {
        let lend = expr_end(toks, 0, 0);
        if lend == 0 {
            return Err(mk_diag(DiagKind::ExpectedExpr, 0));
        }
        let left = copy_range(toks, 0, lend);
        if !(lend < toks.len() && is_punct(&toks[lend], ',')) {
            return Err(mk_diag(DiagKind::ExpectedComma, lend));
        }
        let i = lend + 1;
        if i < toks.len() && is_open(&toks[i], Delim::Brace) {
            match scan_close(toks, i + 1, 0) {
                None => Err(mk_diag(DiagKind::UnclosedGroup, i)),
                Some(close) => match Anon::parse_in(toks, i + 1, close) {
                    Err(e) => Err(e),
                    Ok(a) => match parse_fmt_tail(toks, close + 1) {
                        Err(e) => Err(e),
                        Ok(fmt) => Ok(AssertFieldsEq::Anon { left, anon: a, fmt_args: fmt }),
                    },
                },
            }
        } else if i < toks.len() && is_ident(&toks[i]) {
            let rend = expr_end(toks, i, 0);
            let right = copy_range(toks, i, rend);
            if !(rend < toks.len() && is_punct(&toks[rend], ',')) {
                return Err(mk_diag(DiagKind::ExpectedComma, rend));
            }
            let b = rend + 1;
            if !(b < toks.len() && is_open(&toks[b], Delim::Bracket)) {
                return Err(mk_diag(DiagKind::ExpectedBracket, b));
            }
            match scan_close(toks, b + 1, 0) {
                None => Err(mk_diag(DiagKind::UnclosedGroup, b)),
                Some(close) => match parse_ident_list(toks, b + 1, close) {
                    Err(e) => Err(e),
                    Ok(fields) => if fields.len() == 0 {
                        Err(mk_diag(DiagKind::EmptyFields, b))
                    } else {
                        match parse_fmt_tail(toks, close + 1) {
                            Err(e) => Err(e),
                            Ok(fmt) => Ok(
                                AssertFieldsEq::List { left, right, fields, fmt_args: fmt },
                            ),
                        }
                    },
                },
            }
        } else {
            Err(mk_diag(DiagKind::ExpectedName, i))
        }
    }
}

/// Renders the wrapper declaration.
fn expand_wrapper_decl(names: &Vec<String>) -> (r: Vec<Tok>)
    ensures
        tv(r@) == sp_wrapper_decl(views(names@)),
{
    let ghost nv = views(names@);
    let mut out: Vec<Tok> = Vec::new();
    push_tok(&mut out, t_punct('#'));
    push_tok(&mut out, Tok::Open(Delim::Bracket));
    push_tok(&mut out, t_ident("allow"));
    push_tok(&mut out, Tok::Open(Delim::Paren));
    push_tok(&mut out, t_ident("non_camel_case_types"));
    push_tok(&mut out, Tok::Close(Delim::Paren));
    push_tok(&mut out, Tok::Close(Delim::Bracket));
    push_tok(&mut out, t_punct('#'));
    push_tok(&mut out, Tok::Open(Delim::Bracket));
    push_tok(&mut out, t_ident("derive"));
    push_tok(&mut out, Tok::Open(Delim::Paren));
    push_tok(&mut out, t_ident("Debug"));
    push_tok(&mut out, t_punct(','));
    push_tok(&mut out, t_ident("PartialEq"));
    push_tok(&mut out, t_punct(','));
    push_tok(&mut out, t_ident("Eq"));
    push_tok(&mut out, Tok::Close(Delim::Paren));
    push_tok(&mut out, Tok::Close(Delim::Bracket));
    push_tok(&mut out, t_ident("struct"));
    push_tok(&mut out, t_ident("Fields"));
    push_tok(&mut out, t_punct('<'));
    push_tok(&mut out, t_joint('\''));
    push_tok(&mut out, t_ident("a"));
    push_tok(&mut out, t_punct(','));
    let ghost sec0 = sp_allow_attr() + sp_wrapper_derive() + seq![
        TokV::Ident("struct"@),
        TokV::Ident("Fields"@),
        TokV::Punct('<', false),
        TokV::Punct('\'', true),
        TokV::Ident("a"@),
        TokV::Punct(',', false),
    ];
    proof {
        assert(tv(out@) =~= sec0 + sp_wrapper_params(nv, 0));
    }
    let mut i: usize = 0;
    while i < names.len()
        invariant
            i <= names.len(),
            nv == views(names@),
            tv(out@) == sec0 + sp_wrapper_params(nv, i as int),
        decreases names.len() - i,
    {
        push_tok(&mut out, Tok::Ident(names[i].clone()));
        push_tok(&mut out, t_punct(','));
        proof {
            assert(names@[i as int]@ == nv[i as int]);
            assert(tv(out@) =~= sec0 + sp_wrapper_params(nv, i as int + 1));
        }
        i = i + 1;
    }
    push_tok(&mut out, t_punct('>'));
    push_tok(&mut out, Tok::Open(Delim::Brace));
    let ghost sec1 = sec0 + sp_wrapper_params(nv, nv.len() as int) + seq![
        TokV::Punct('>', false),
        TokV::Open(Delim::Brace),
    ];
    proof {
        assert(tv(out@) =~= sec1 + sp_wrapper_fields(nv, 0));
    }
    let mut k: usize = 0;
    while k < names.len()
        invariant
            k <= names.len(),
            nv == views(names@),
            tv(out@) == sec1 + sp_wrapper_fields(nv, k as int),
        decreases names.len() - k,
    {
        push_tok(&mut out, Tok::Ident(names[k].clone()));
        push_tok(&mut out, t_punct(':'));
        push_tok(&mut out, t_punct('&'));
        push_tok(&mut out, t_joint('\''));
        push_tok(&mut out, t_ident("a"));
        push_tok(&mut out, Tok::Ident(names[k].clone()));
        push_tok(&mut out, t_punct(','));
        proof {
            assert(names@[k as int]@ == nv[k as int]);
            assert(tv(out@) =~= sec1 + sp_wrapper_fields(nv, k as int + 1));
        }
        k = k + 1;
    }
    push_tok(&mut out, Tok::Close(Delim::Brace));
    proof {
        assert(tv(out@) =~= sp_wrapper_decl(nv));
    }
    out
}

/// Renders `let side = & value ;` followed by
/// `let side = Fields { projections } ;`.
fn expand_side(side: &str, value: &Vec<Tok>, names: &Vec<String>) -> (r: Vec<Tok>)
    ensures
        tv(r@) == sp_side_bind(side@, tv(value@)) + sp_side_wrapper(side@, views(names@)),
{
    let ghost nv = views(names@);
    let mut out: Vec<Tok> = Vec::new();
    push_tok(&mut out, t_ident("let"));
    push_tok(&mut out, t_ident(side));
    push_tok(&mut out, t_punct('='));
    push_tok(&mut out, t_punct('&'));
    append_copy(&mut out, value);
    push_tok(&mut out, t_punct(';'));
    push_tok(&mut out, t_ident("let"));
    push_tok(&mut out, t_ident(side));
    push_tok(&mut out, t_punct('='));
    push_tok(&mut out, t_ident("Fields"));
    push_tok(&mut out, Tok::Open(Delim::Brace));
    let ghost sec0 = sp_side_bind(side@, tv(value@)) + seq![
        TokV::Ident("let"@),
        TokV::Ident(side@),
        TokV::Punct('=', false),
        TokV::Ident("Fields"@),
        TokV::Open(Delim::Brace),
    ];
    proof {
        assert(tv(out@) =~= sec0 + sp_side_fields(side@, nv, 0));
    }
    let mut i: usize = 0;
    while i < names.len()
        invariant
            i <= names.len(),
            nv == views(names@),
            tv(out@) == sec0 + sp_side_fields(side@, nv, i as int),
        decreases names.len() - i,
    {
        push_tok(&mut out, Tok::Ident(names[i].clone()));
        push_tok(&mut out, t_punct(':'));
        push_tok(&mut out, t_punct('&'));
        push_tok(&mut out, Tok::Open(Delim::Paren));
        push_tok(&mut out, t_ident(side));
        push_tok(&mut out, t_punct('.'));
        push_tok(&mut out, Tok::Ident(names[i].clone()));
        push_tok(&mut out, Tok::Close(Delim::Paren));
        push_tok(&mut out, t_punct(','));
        proof {
            assert(names@[i as int]@ == nv[i as int]);
            assert(tv(out@) =~= sec0 + sp_side_fields(side@, nv, i as int + 1));
        }
        i = i + 1;
    }
    push_tok(&mut out, Tok::Close(Delim::Brace));
    push_tok(&mut out, t_punct(';'));
    proof {
        assert(tv(out@) =~= sp_side_bind(side@, tv(value@)) + sp_side_wrapper(side@, nv));
    }
    out
}

/// Renders the shared comparison block.
fn expand_compare(left: &Vec<Tok>, right: &Vec<Tok>, names: &Vec<String>, fmt_args: &Vec<Tok>)
    -> (r: Vec<Tok>)
    ensures
        tv(r@) == sp_compare_block(tv(left@), tv(right@), views(names@), tv(fmt_args@)),
{
    let mut out = expand_wrapper_decl(names);
    let ls = expand_side("left", left, names);
    append_owned(&mut out, ls);
    let rs = expand_side("right", right, names);
    append_owned(&mut out, rs);
    push_tok(&mut out, t_ident("assert_eq"));
    push_tok(&mut out, t_punct('!'));
    push_tok(&mut out, Tok::Open(Delim::Paren));
    push_tok(&mut out, t_ident("left"));
    push_tok(&mut out, t_punct(','));
    push_tok(&mut out, t_ident("right"));
    append_copy(&mut out, fmt_args);
    push_tok(&mut out, Tok::Close(Delim::Paren));
    push_tok(&mut out, t_punct(';'));
    proof {
        assert(tv(out@) =~= sp_compare_block(tv(left@), tv(right@), views(names@),
            tv(fmt_args@)));
    }
    out
}

impl AssertFieldsEq {
    /// Renders the expansion block.
    pub fn expand(&self) -> (r: Vec<Tok>)
        ensures
            tv(r@) == sp_afe_render(self@),
    {
        match self {
            AssertFieldsEq::List { left, right, fields, fmt_args } => {
                let mut out: Vec<Tok> = Vec::new();
                push_tok(&mut out, Tok::Open(Delim::Brace));
                let cmp = expand_compare(left, right, fields, fmt_args);
                append_owned(&mut out, cmp);
                push_tok(&mut out, Tok::Close(Delim::Brace));
                proof {
                    assert(tv(out@) =~= sp_afe_render(self@));
                }
                out
            },
            AssertFieldsEq::Anon { left, anon, fmt_args } => {
                let mut out: Vec<Tok> = Vec::new();
                push_tok(&mut out, Tok::Open(Delim::Brace));
                push_tok(&mut out, t_ident("let"));
                push_tok(&mut out, t_ident("right"));
                push_tok(&mut out, t_punct('='));
                let av = anon.expand();
                append_owned(&mut out, av);
                push_tok(&mut out, t_punct(';'));
                let names = collect_names(&anon.items);
                let mut rightv: Vec<Tok> = Vec::new();
                push_tok(&mut rightv, t_ident("right"));
                let cmp = expand_compare(left, &rightv, &names, fmt_args);
                append_owned(&mut out, cmp);
                push_tok(&mut out, Tok::Close(Delim::Brace));
                proof {
                    assert(tv(rightv@) =~= seq![TokV::Ident("right"@)]);
                    assert(tv(out@) =~= sp_afe_render(self@));
                }
                out
            },
        }
    }
}

/// Expands a field-subset assertion, or reports the diagnostic that
/// [`sp_assert_fields_eq`] fixes for this input.
pub fn assert_fields_eq(toks: &Vec<Tok>) -> (r: Result<Vec<Tok>, Diag>)
    ensures
        match r {
            Ok(out) => sp_assert_fields_eq(tv(toks@)) == Ok::<Seq<TokV>, Diag>(tv(out@)),
            Err(e) => sp_assert_fields_eq(tv(toks@)) == Err::<Seq<TokV>, Diag>(e),
        },
{
    match AssertFieldsEq::parse(toks) {
        Ok(a) => Ok(a.expand()),
        Err(e) => Err(e),
    }
}

/// Law: the comparison reads only the listed fields.  The wrapper type
/// stores exactly one reference per listed name; each side's wrapper
/// value projects exactly the listed names from that side; and the
/// comparison block depends on the compared expressions only through the
/// two `let` bindings — with the sides replaced by any other expressions,
/// the wrapper declaration, both wrapper values and the assertion itself
/// are token-for-token the same, so no unlisted field takes part in the
/// comparison or in its failure output.
pub proof fn lemma_comparison_scope(
    left1: Seq<TokV>,
    right1: Seq<TokV>,
    left2: Seq<TokV>,
    right2: Seq<TokV>,
    names: Seq<Seq<char>>,
    fmt_args: Seq<TokV>,
)
    ensures
        sp_compare_block(left1, right1, names, fmt_args) == sp_wrapper_decl(names)
            + sp_side_bind("left"@, left1) + sp_side_wrapper("left"@, names) + sp_side_bind(
            "right"@,
            right1,
        ) + sp_side_wrapper("right"@, names) + sp_assert_call(fmt_args),
        sp_compare_block(left2, right2, names, fmt_args) == sp_wrapper_decl(names)
            + sp_side_bind("left"@, left2) + sp_side_wrapper("left"@, names) + sp_side_bind(
            "right"@,
            right2,
        ) + sp_side_wrapper("right"@, names) + sp_assert_call(fmt_args),
{
}

} // verus!
