//! The anonymous-type generator.
//!
//! The items are the same as in the struct-literal form, minus the
//! final-spread and minus `mut` markers.  The expansion declares a fresh
//! struct `Anon` with one inferred type parameter per field (in first-seen
//! order, flattening spread-lists), derives equality, duplication and
//! printing on it, forwards any `#![...]` attributes written before the
//! fields, and then builds a value of it exactly as the struct-literal
//! generator would.

use vstd::prelude::*;

use crate::common::{check_items_final, check_items_mut, parse_items, sp_items,
    sp_items_final_diag, sp_items_mut_diag, FieldV, SpreadItem, SpreadItemV};
use crate::diag::{diag, mk_diag, Diag, DiagKind};
use crate::scan::{lemma_scan_close_bounds, scan_close, sp_scan_close};
use crate::spread::{sp_let_sources_prefix, sp_literal_body_prefix};
use crate::token::{append_copy, append_owned, copy_range, dec_chars, dec_string, is_open,
    is_punct, is_punct_v, push_tok, t_ident, t_punct, tv, tvs, views, Delim, Tok, TokV};
use vstd::string::StringExecFns;

verus! {

/// A parsed anonymous-type invocation: forwarded attributes and items.
#[derive(Debug, PartialEq, Eq)]
pub struct Anon {
    pub attrs: Vec<Vec<Tok>>,
    pub items: Vec<SpreadItem>,
}

/// The mathematical value of an anonymous-type invocation.
pub struct AnonV {
    pub attrs: Seq<Seq<TokV>>,
    pub items: Seq<SpreadItemV>,
}

impl View for Anon {
    type V = AnonV;

    open spec fn view(&self) -> AnonV {
        AnonV { attrs: tvs(self.attrs@), items: views(self.items@) }
    }
}

/// The leading `#![...]` attribute groups from `i` on, and the position
/// after them.  Each attribute's bracketed content is kept; the brackets
/// must close within the region.
pub open spec fn sp_inner_attrs(s: Seq<TokV>, i: int, end: int) -> Result<(Seq<Seq<TokV>>, int),
    Diag>
    decreases end - i,
        when 0 <= i
        via sp_inner_attrs_dec
{
    if i >= end || !(is_punct_v(s[i], '#') && i + 1 < end && is_punct_v(s[i + 1], '!') && i + 2
        < end && s[i + 2] == TokV::Open(Delim::Bracket)) {
        Ok((Seq::empty(), i))
    } else {
        match sp_scan_close(s, i + 3, 0) {
            None => Err(diag(DiagKind::UnclosedGroup, i + 2)),
            Some(close) => if close >= end {
                Err(diag(DiagKind::UnclosedGroup, i + 2))
            } else {
                match sp_inner_attrs(s, close + 1, end) {
                    Err(e) => Err(e),
                    Ok((rest, j)) => Ok((seq![s.subrange(i + 3, close)] + rest, j)),
                }
            },
        }
    }
}

#[via_fn]
proof fn sp_inner_attrs_dec(s: Seq<TokV>, i: int, end: int) {
    if 0 <= i {
        lemma_scan_close_bounds(s, i + 3, 0);
    }
}

/// Whether the executable result `r` is exactly what [`sp_inner_attrs`]
/// says.
pub open spec fn inner_attrs_res_matches(
    s: Seq<TokV>,
    i: int,
    end: int,
    r: Result<(Vec<Vec<Tok>>, usize), Diag>,
) -> bool {
    match r {
        Ok((attrs, j)) => sp_inner_attrs(s, i, end) == Ok::<(Seq<Seq<TokV>>, int), Diag>(
            (tvs(attrs@), j as int),
        ),
        Err(e) => sp_inner_attrs(s, i, end) == Err::<(Seq<Seq<TokV>>, int), Diag>(e),
    }
}

/// Parses the leading `#![...]` attribute groups in `[i, end)`.
pub fn parse_inner_attrs(toks: &Vec<Tok>, i: usize, end: usize) -> (r: Result<(Vec<Vec<Tok>>,
    usize), Diag>)
    requires
        end <= toks.len(),
    ensures
        inner_attrs_res_matches(tv(toks@), i as int, end as int, r),
    decreases end - i,
{
    if i >= end || !(is_punct(&toks[i], '#') && i + 1 < end && is_punct(&toks[i + 1], '!') && i + 2
        < end && is_open(&toks[i + 2], Delim::Bracket)) {
        proof {
            assert(tvs(Seq::<Vec<Tok>>::empty()) =~= Seq::<Seq<TokV>>::empty());
        }
        Ok((Vec::new(), i))
    } else {
        match scan_close(toks, i + 3, 0) {
            None => Err(mk_diag(DiagKind::UnclosedGroup, i + 2)),
            Some(close) => if close >= end {
                Err(mk_diag(DiagKind::UnclosedGroup, i + 2))
            } else {
                match parse_inner_attrs(toks, close + 1, end) {
                    Err(e) => Err(e),
                    Ok((mut rest, j)) => {
                        let attr = copy_range(toks, i + 3, close);
                        let ghost ag = attr@;
                        let ghost restg = rest@;
                        let mut out: Vec<Vec<Tok>> = Vec::new();
                        out.push(attr);
                        out.append(&mut rest);
                        proof {
                            assert(tvs(out@) =~= seq![tv(ag)] + tvs(restg));
                        }
                        Ok((out, j))
                    },
                }
            },
        }
    }
}

/// What the anonymous-type grammar accepts in `[i, end)`: optional inner
/// attributes, then a non-empty item list with no final-spread and no
/// `mut` markers.
pub open spec fn sp_anon_ast(s: Seq<TokV>, i: int, end: int) -> Result<AnonV, Diag> {
    match sp_inner_attrs(s, i, end) {
        Err(e) => Err(e),
        Ok((attrs, j)) => match sp_items(s, j, end, 0) {
            Err(e) => Err(e),
            Ok((items, _trailing)) => if items.len() == 0 {
                Err(diag(DiagKind::EmptyFields, j))
            } else {
                match sp_items_final_diag(items) {
                    Some(d) => Err(d),
                    None => match sp_items_mut_diag(items) {
                        Some(d) => Err(d),
                        None => Ok(AnonV { attrs, items }),
                    },
                }
            },
        },
    }
}

/// The field names of an item, in declaration order.
pub open spec fn item_names(it: SpreadItemV) -> Seq<Seq<char>> {
    match it {
        SpreadItemV::Field(f) => seq![f.name],
        SpreadItemV::SpreadList(l) => fields_names(l.fields),
        SpreadItemV::FinalSpread(_, _) => Seq::empty(),
    }
}

/// The names of a field sequence, in order.
pub open spec fn fields_names(fs: Seq<FieldV>) -> Seq<Seq<char>> {
    Seq::new(fs.len(), |i: int| fs[i].name)
}

/// The names of the first `n` items, flattened in first-seen order.
pub open spec fn sp_anon_names_prefix(items: Seq<SpreadItemV>, n: int) -> Seq<Seq<char>>
    decreases n,
{
    if n <= 0 {
        Seq::empty()
    } else {
        sp_anon_names_prefix(items, n - 1) + item_names(items[n - 1])
    }
}

/// Every field name of the invocation, flattened in first-seen order.
pub open spec fn sp_anon_names(items: Seq<SpreadItemV>) -> Seq<Seq<char>> {
    sp_anon_names_prefix(items, items.len() as int)
}

/// Collects every field name, flattening spread-lists, in first-seen
/// order.
pub fn collect_names(items: &Vec<SpreadItem>) -> (r: Vec<String>)
    ensures
        views(r@) == sp_anon_names(views(items@)),
{
    let ghost itemsv = views(items@);
    let mut r: Vec<String> = Vec::new();
    let mut i: usize = 0;
    proof {
        assert(views(r@) =~= sp_anon_names_prefix(itemsv, 0));
    }
    while i < items.len()
        invariant
            i <= items.len(),
            itemsv == views(items@),
            views(r@) == sp_anon_names_prefix(itemsv, i as int),
        decreases items.len() - i,
    {
        proof {
            assert(items@[i as int]@ == itemsv[i as int]);
        }
        match &items[i] {
            SpreadItem::Field(f) => {
                let ghost r0 = r@;
                r.push(f.name.clone());
                proof {
                    assert(views(r@) =~= sp_anon_names_prefix(itemsv, i as int + 1));
                }
            },
            SpreadItem::SpreadList(l) => {
                let ghost lv = l@;
                let mut k: usize = 0;
                proof {
                    assert(fields_names(lv.fields).subrange(0, 0) =~= Seq::<Seq<char>>::empty());
                    assert(views(r@) =~= sp_anon_names_prefix(itemsv, i as int) + fields_names(
                        lv.fields,
                    ).subrange(0, 0));
                }
                while k < l.fields.len()
                    invariant
                        k <= l.fields.len(),
                        lv == l@,
                        itemsv == views(items@),
                        views(r@) == sp_anon_names_prefix(itemsv, i as int) + fields_names(
                            lv.fields,
                        ).subrange(0, k as int),
                    decreases l.fields.len() - k,
                {
                    let nm = l.fields[k].name.clone();
                    let ghost nmg = nm;
                    let ghost r0 = r@;
                    r.push(nm);
                    proof {
                        crate::token::lemma_views_push(r0, nmg);
                        assert(l.fields@[k as int]@ == lv.fields[k as int]);
                        assert(fields_names(lv.fields).subrange(0, k as int + 1) =~= fields_names(
                            lv.fields,
                        ).subrange(0, k as int).push(lv.fields[k as int].name));
                        assert(views(r@) =~= sp_anon_names_prefix(itemsv, i as int) + fields_names(
                            lv.fields,
                        ).subrange(0, k as int + 1));
                    }
                    k = k + 1;
                }
                proof {
                    assert(fields_names(lv.fields).subrange(
                        0,
                        fields_names(lv.fields).len() as int,
                    ) =~= fields_names(lv.fields));
                    assert(views(r@) =~= sp_anon_names_prefix(itemsv, i as int + 1));
                }
            },
            SpreadItem::FinalSpread(_, _) => {
                proof {
                    assert(views(r@) =~= sp_anon_names_prefix(itemsv, i as int + 1));
                }
            },
        }
        i = i + 1;
    }
    r
}

/// The synthesized type parameter for the `i`-th field: `T` followed by
/// the field position in decimal.
pub open spec fn tparam_chars(i: int) -> Seq<char> {
    seq!['T'] + dec_chars(i as nat)
}

/// Executable counterpart of [`tparam_chars`].
pub fn tparam_string(i: usize) -> (r: String)
    ensures
        r@ == tparam_chars(i as int),
{
    let mut t: String = "T".to_owned();
    let ds = dec_string(i);
    t.append(ds.as_str());
    proof {
        reveal_strlit("T");
        assert(t@ =~= tparam_chars(i as int));
    }
    t
}

/// The derive attribute placed on the synthesized type: equality,
/// duplication and printing, conditional on the field types as usual for
/// derived impls.
pub open spec fn sp_derive_attr() -> Seq<TokV> {
    seq![
        TokV::Punct('#', false),
        TokV::Open(Delim::Bracket),
        TokV::Ident("derive"@),
        TokV::Open(Delim::Paren),
        TokV::Ident("Copy"@),
        TokV::Punct(',', false),
        TokV::Ident("Clone"@),
        TokV::Punct(',', false),
        TokV::Ident("Debug"@),
        TokV::Punct(',', false),
        TokV::Ident("PartialEq"@),
        TokV::Punct(',', false),
        TokV::Ident("Eq"@),
        TokV::Close(Delim::Paren),
        TokV::Close(Delim::Bracket),
    ]
}

/// Appends the derive attribute of the synthesized type.
pub fn push_derive_attr(out: &mut Vec<Tok>)
    ensures
        tv(final(out)@) == tv(old(out)@) + sp_derive_attr(),
{
    push_tok(out, t_punct('#'));
    push_tok(out, Tok::Open(Delim::Bracket));
    push_tok(out, t_ident("derive"));
    push_tok(out, Tok::Open(Delim::Paren));
    push_tok(out, t_ident("Copy"));
    push_tok(out, t_punct(','));
    push_tok(out, t_ident("Clone"));
    push_tok(out, t_punct(','));
    push_tok(out, t_ident("Debug"));
    push_tok(out, t_punct(','));
    push_tok(out, t_ident("PartialEq"));
    push_tok(out, t_punct(','));
    push_tok(out, t_ident("Eq"));
    push_tok(out, Tok::Close(Delim::Paren));
    push_tok(out, Tok::Close(Delim::Bracket));
    proof {
        assert(tv(out@) =~= tv(old(out)@) + sp_derive_attr());
    }
}

/// The first `n` forwarded attributes, each rendered as `# [ content ]`.
pub open spec fn sp_attrs_prefix(attrs: Seq<Seq<TokV>>, n: int) -> Seq<TokV>
    decreases n,
{
    if n <= 0 {
        Seq::empty()
    } else {
        sp_attrs_prefix(attrs, n - 1) + seq![TokV::Punct('#', false), TokV::Open(Delim::Bracket)]
            + attrs[n - 1] + seq![TokV::Close(Delim::Bracket)]
    }
}

/// The first `n` synthesized type parameters, comma-separated.
pub open spec fn sp_tparams_prefix(n: int) -> Seq<TokV>
    decreases n,
{
    if n <= 0 {
        Seq::empty()
    } else if n == 1 {
        seq![TokV::Ident(tparam_chars(0))]
    } else {
        sp_tparams_prefix(n - 1) + seq![TokV::Punct(',', false), TokV::Ident(tparam_chars(n - 1))]
    }
}

/// The first `n` declared fields `name : T<n>`, comma-separated.
pub open spec fn sp_decl_fields_prefix(names: Seq<Seq<char>>, n: int) -> Seq<TokV>
    decreases n,
{
    if n <= 0 {
        Seq::empty()
    } else if n == 1 {
        seq![TokV::Ident(names[0]), TokV::Punct(':', false), TokV::Ident(tparam_chars(0))]
    } else {
        sp_decl_fields_prefix(names, n - 1) + seq![
            TokV::Punct(',', false),
            TokV::Ident(names[n - 1]),
            TokV::Punct(':', false),
            TokV::Ident(tparam_chars(n - 1)),
        ]
    }
}

/// The full expansion: a block declaring the synthesized type, binding the
/// spread-list sources once each, and building the value.
pub open spec fn sp_anon_render(a: AnonV) -> Seq<TokV> {
    let names = sp_anon_names(a.items);
    seq![TokV::Open(Delim::Brace)] + sp_derive_attr() + sp_attrs_prefix(
        a.attrs,
        a.attrs.len() as int,
    ) + seq![TokV::Ident("struct"@), TokV::Ident("Anon"@), TokV::Punct('<', false)]
        + sp_tparams_prefix(names.len() as int) + seq![
        TokV::Punct('>', false),
        TokV::Open(Delim::Brace),
    ] + sp_decl_fields_prefix(names, names.len() as int) + seq![TokV::Close(Delim::Brace)]
        + sp_let_sources_prefix(a.items, a.items.len() as int) + seq![
        TokV::Ident("Anon"@),
        TokV::Open(Delim::Brace),
    ] + sp_literal_body_prefix(a.items, a.items.len() as int) + seq![
        TokV::Close(Delim::Brace),
        TokV::Close(Delim::Brace),
    ]
}

/// What the anonymous-type generator returns on every input.
pub open spec fn sp_anon(s: Seq<TokV>) -> Result<Seq<TokV>, Diag> {
    match sp_anon_ast(s, 0, s.len() as int) {
        Ok(a) => Ok(sp_anon_render(a)),
        Err(e) => Err(e),
    }
}

impl Anon {
    /// Parses an anonymous-type invocation filling `[i, end)`.
    pub fn parse_in(toks: &Vec<Tok>, i: usize, end: usize) -> (r: Result<Anon, Diag>)
        requires
            end <= toks.len(),
        ensures
            match r {
                Ok(a) => sp_anon_ast(tv(toks@), i as int, end as int) == Ok::<AnonV, Diag>(a@),
                Err(e) => sp_anon_ast(tv(toks@), i as int, end as int) == Err::<AnonV, Diag>(e),
            },
    {
        match parse_inner_attrs(toks, i, end) {
            Err(e) => Err(e),
            Ok((attrs, j)) => match parse_items(toks, j, end, 0) {
                Err(e) => Err(e),
                Ok((items, _trailing)) => {
                    if items.len() == 0 {
                        return Err(mk_diag(DiagKind::EmptyFields, j));
                    }
                    match check_items_final(&items) {
                        Some(d) => {
                            return Err(d);
                        },
                        None => {},
                    }
                    match check_items_mut(&items) {
                        Some(d) => {
                            return Err(d);
                        },
                        None => {},
                    }
                    Ok(Anon { attrs, items })
                },
            },
        }
    }

    /// Parses an anonymous-type invocation filling the whole input.
    pub fn parse(toks: &Vec<Tok>) -> (r: Result<Anon, Diag>)
        ensures
            match r {
                Ok(a) => sp_anon_ast(tv(toks@), 0, tv(toks@).len() as int) == Ok::<AnonV, Diag>(
                    a@,
                ),
                Err(e) => sp_anon_ast(tv(toks@), 0, tv(toks@).len() as int) == Err::<AnonV, Diag>(
                    e,
                ),
            },
    {
        Anon::parse_in(toks, 0, toks.len())
    }

    /// Renders the expansion block.
    pub fn expand(&self) -> (r: Vec<Tok>)
        ensures
            tv(r@) == sp_anon_render(self@),
    {
        let ghost itemsv = views(self.items@);
        let ghost attrsv = tvs(self.attrs@);
        let names = collect_names(&self.items);
        let ghost namesv = views(names@);
        let mut out: Vec<Tok> = Vec::new();
        push_tok(&mut out, Tok::Open(Delim::Brace));
        push_derive_attr(&mut out);
        let ghost sec0 = seq![TokV::Open(Delim::Brace)] + sp_derive_attr();
        proof {
            assert(tv(out@) =~= sec0 + sp_attrs_prefix(attrsv, 0));
        }
        let mut i: usize = 0;
        while i < self.attrs.len()
            invariant
                i <= self.attrs.len(),
                attrsv == tvs(self.attrs@),
                sec0 == seq![TokV::Open(Delim::Brace)] + sp_derive_attr(),
                tv(out@) == sec0 + sp_attrs_prefix(attrsv, i as int),
            decreases self.attrs.len() - i,
        {
            push_tok(&mut out, t_punct('#'));
            push_tok(&mut out, Tok::Open(Delim::Bracket));
            append_copy(&mut out, &self.attrs[i]);
            push_tok(&mut out, Tok::Close(Delim::Bracket));
            proof {
                assert(tv(self.attrs@[i as int]@) == attrsv[i as int]);
                assert(tv(out@) =~= sec0 + sp_attrs_prefix(attrsv, i as int + 1));
            }
            i = i + 1;
        }
        push_tok(&mut out, t_ident("struct"));
        push_tok(&mut out, t_ident("Anon"));
        push_tok(&mut out, t_punct('<'));
        let ghost sec1 = sec0 + sp_attrs_prefix(attrsv, attrsv.len() as int) + seq![
            TokV::Ident("struct"@),
            TokV::Ident("Anon"@),
            TokV::Punct('<', false),
        ];
        proof {
            assert(tv(out@) =~= sec1 + sp_tparams_prefix(0));
        }
        let mut j: usize = 0;
        while j < names.len()
            invariant
                j <= names.len(),
                tv(out@) == sec1 + sp_tparams_prefix(j as int),
            decreases names.len() - j,
        {
            if j > 0 {
                push_tok(&mut out, t_punct(','));
            }
            let tp = tparam_string(j);
            push_tok(&mut out, Tok::Ident(tp));
            proof {
                assert(tv(out@) =~= sec1 + sp_tparams_prefix(j as int + 1));
            }
            j = j + 1;
        }
        push_tok(&mut out, t_punct('>'));
        push_tok(&mut out, Tok::Open(Delim::Brace));
        let ghost sec2 = sec1 + sp_tparams_prefix(namesv.len() as int) + seq![
            TokV::Punct('>', false),
            TokV::Open(Delim::Brace),
        ];
        proof {
            assert(tv(out@) =~= sec2 + sp_decl_fields_prefix(namesv, 0));
        }
        let mut k: usize = 0;
        while k < names.len()
            invariant
                k <= names.len(),
                namesv == views(names@),
                tv(out@) == sec2 + sp_decl_fields_prefix(namesv, k as int),
            decreases names.len() - k,
        {
            if k > 0 {
                push_tok(&mut out, t_punct(','));
            }
            push_tok(&mut out, Tok::Ident(names[k].clone()));
            push_tok(&mut out, t_punct(':'));
            let tp = tparam_string(k);
            push_tok(&mut out, Tok::Ident(tp));
            proof {
                assert(names@[k as int]@ == namesv[k as int]);
                assert(tv(out@) =~= sec2 + sp_decl_fields_prefix(namesv, k as int + 1));
            }
            k = k + 1;
        }
        push_tok(&mut out, Tok::Close(Delim::Brace));
        let ghost sec3 = sec2 + sp_decl_fields_prefix(namesv, namesv.len() as int) + seq![
            TokV::Close(Delim::Brace),
        ];
        proof {
            assert(tv(out@) =~= sec3 + sp_let_sources_prefix(itemsv, 0));
        }
        let mut a: usize = 0;
        while a < self.items.len()
            invariant
                a <= self.items.len(),
                itemsv == views(self.items@),
                tv(out@) == sec3 + sp_let_sources_prefix(itemsv, a as int),
            decreases self.items.len() - a,
        {
            match &self.items[a] {
                SpreadItem::SpreadList(l) => {
                    push_tok(&mut out, t_ident("let"));
                    push_tok(&mut out, Tok::Ident(l.binder.clone()));
                    push_tok(&mut out, t_punct('='));
                    append_copy(&mut out, &l.source);
                    push_tok(&mut out, t_punct(';'));
                },
                _ => {},
            }
            proof {
                assert(self.items@[a as int]@ == itemsv[a as int]);
                assert(tv(out@) =~= sec3 + sp_let_sources_prefix(itemsv, a as int + 1));
            }
            a = a + 1;
        }
        push_tok(&mut out, t_ident("Anon"));
        push_tok(&mut out, Tok::Open(Delim::Brace));
        let ghost sec4 = sec3 + sp_let_sources_prefix(itemsv, itemsv.len() as int) + seq![
            TokV::Ident("Anon"@),
            TokV::Open(Delim::Brace),
        ];
        proof {
            assert(tv(out@) =~= sec4 + sp_literal_body_prefix(itemsv, 0));
        }
        let mut b: usize = 0;
        while b < self.items.len()
            invariant
                b <= self.items.len(),
                itemsv == views(self.items@),
                tv(out@) == sec4 + sp_literal_body_prefix(itemsv, b as int),
            decreases self.items.len() - b,
        {
            if b > 0 {
                push_tok(&mut out, t_punct(','));
            }
            let rendered = self.items[b].field_expansion();
            append_owned(&mut out, rendered);
            proof {
                assert(self.items@[b as int]@ == itemsv[b as int]);
                assert(tv(out@) =~= sec4 + sp_literal_body_prefix(itemsv, b as int + 1));
            }
            b = b + 1;
        }
        push_tok(&mut out, Tok::Close(Delim::Brace));
        push_tok(&mut out, Tok::Close(Delim::Brace));
        proof {
            assert(tv(out@) =~= sp_anon_render(self@));
        }
        out
    }
}

/// Expands an anonymous-type invocation, or reports the diagnostic that
/// [`sp_anon`] fixes for this input.
pub fn anon(toks: &Vec<Tok>) -> (r: Result<Vec<Tok>, Diag>)
    ensures
        match r {
            Ok(out) => sp_anon(tv(toks@)) == Ok::<Seq<TokV>, Diag>(tv(out@)),
            Err(e) => sp_anon(tv(toks@)) == Err::<Seq<TokV>, Diag>(e),
        },
{
    match Anon::parse(toks) {
        Ok(a) => Ok(a.expand()),
        Err(e) => Err(e),
    }
}

} // verus!
