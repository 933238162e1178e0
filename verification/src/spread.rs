//! The struct-literal generator: `Name { items }`.
//!
//! The expansion is a block that first binds every spread-list's source
//! expression once, then builds the struct literal, drawing plain fields
//! from their values, spread-list fields from the intermediate binders, and
//! ending with the `..rest` trailer when a final-spread item is present.

use vstd::prelude::*;

use crate::common::{check_final_not_last, check_items_mut, check_trailing_final, ident_of,
    ident_text, parse_items, sp_final_not_last_diag, sp_item_field_expansion, sp_items,
    sp_items_mut_diag, sp_trailing_final_diag, SpreadItem, SpreadItemV};
use crate::diag::{diag, mk_diag, Diag, DiagKind};
use crate::scan::{scan_close, sp_scan_close};
use crate::token::{append_copy, append_owned, is_ident, is_open, push_tok, t_ident, t_punct, tv,
    views, Delim, Tok, TokV};

verus! {

/// A parsed struct-spread invocation: a type name and its item list.
#[derive(Debug, PartialEq, Eq)]
pub struct Spread {
    pub name: String,
    pub items: Vec<SpreadItem>,
}

/// The mathematical value of a struct-spread invocation.
pub struct SpreadV {
    pub name: Seq<char>,
    pub items: Seq<SpreadItemV>,
}

impl View for Spread {
    type V = SpreadV;

    open spec fn view(&self) -> SpreadV {
        SpreadV { name: self.name@, items: views(self.items@) }
    }
}

/// What the struct-spread grammar accepts: a type name, a braced item list
/// filling the rest of the input, at least one item, a final-spread only as
/// the last item and without a trailing comma, and no `mut` markers.
pub open spec fn sp_spread_ast(s: Seq<TokV>) -> Result<SpreadV, Diag> {
    if !(s.len() > 0 && s[0] is Ident) {
        Err(diag(DiagKind::ExpectedName, 0))
    } else if !(s.len() > 1 && s[1] == TokV::Open(Delim::Brace)) {
        Err(diag(DiagKind::ExpectedBrace, 1))
    } else {
        match sp_scan_close(s, 2, 0) {
            None => Err(diag(DiagKind::UnclosedGroup, 1)),
            Some(close) => match sp_items(s, 2, close, 0) {
                Err(e) => Err(e),
                Ok((items, trailing)) => if items.len() == 0 {
                    Err(diag(DiagKind::EmptyFields, 1))
                } else {
                    match sp_final_not_last_diag(items) {
                        Some(d) => Err(d),
                        None => match sp_trailing_final_diag(items, trailing) {
                            Some(d) => Err(d),
                            None => match sp_items_mut_diag(items) {
                                Some(d) => Err(d),
                                None => if close + 1 != s.len() {
                                    Err(diag(DiagKind::ExpectedEnd, close + 1))
                                } else {
                                    Ok(SpreadV { name: ident_of(s[0]), items })
                                },
                            },
                        },
                    }
                },
            },
        }
    }
}

/// The binding statement an item contributes before the literal: a
/// spread-list binds its source once under its binder; other items bind
/// nothing.
pub open spec fn sp_item_binding(it: SpreadItemV) -> Seq<TokV> {
    match it {
        SpreadItemV::SpreadList(l) => seq![
            TokV::Ident("let"@),
            TokV::Ident(l.binder),
            TokV::Punct('=', false),
        ] + l.source + seq![TokV::Punct(';', false)],
        _ => Seq::empty(),
    }
}

/// The binding statements of the first `n` items, in input order.
pub open spec fn sp_let_sources_prefix(items: Seq<SpreadItemV>, n: int) -> Seq<TokV>
    decreases n,
{
    if n <= 0 {
        Seq::empty()
    } else {
        sp_let_sources_prefix(items, n - 1) + sp_item_binding(items[n - 1])
    }
}

/// The literal body of the first `n` items: their field expansions in
/// input order, comma-separated, with no trailing comma and nothing else.
pub open spec fn sp_literal_body_prefix(items: Seq<SpreadItemV>, n: int) -> Seq<TokV>
    decreases n,
{
    if n <= 0 {
        Seq::empty()
    } else if n == 1 {
        sp_item_field_expansion(items[0])
    } else {
        sp_literal_body_prefix(items, n - 1) + seq![TokV::Punct(',', false)]
            + sp_item_field_expansion(items[n - 1])
    }
}

/// The full expansion: a block holding the spread-list bindings and then
/// the struct literal.
pub open spec fn sp_spread_render(a: SpreadV) -> Seq<TokV> {
    seq![TokV::Open(Delim::Brace)] + sp_let_sources_prefix(a.items, a.items.len() as int) + seq![
        TokV::Ident(a.name),
        TokV::Open(Delim::Brace),
    ] + sp_literal_body_prefix(a.items, a.items.len() as int) + seq![
        TokV::Close(Delim::Brace),
        TokV::Close(Delim::Brace),
    ]
}

/// What the struct-spread generator returns on every input: the rendering
/// of the parsed invocation, or the parse diagnostic.
pub open spec fn sp_spread(s: Seq<TokV>) -> Result<Seq<TokV>, Diag> {
    match sp_spread_ast(s) {
        Ok(a) => Ok(sp_spread_render(a)),
        Err(e) => Err(e),
    }
}

impl Spread {
    /// Parses a struct-spread invocation filling the whole input.
    pub fn parse(toks: &Vec<Tok>) -> (r: Result<Spread, Diag>)
        ensures
            match r {
                Ok(a) => sp_spread_ast(tv(toks@)) == Ok::<SpreadV, Diag>(a@),
                Err(e) => sp_spread_ast(tv(toks@)) == Err::<SpreadV, Diag>(e),
            },
    {
        if !(toks.len() > 0 && is_ident(&toks[0])) {
            return Err(mk_diag(DiagKind::ExpectedName, 0));
        }
        if !(toks.len() > 1 && is_open(&toks[1], Delim::Brace)) {
            return Err(mk_diag(DiagKind::ExpectedBrace, 1));
        }
        match scan_close(toks, 2, 0) {
            None => Err(mk_diag(DiagKind::UnclosedGroup, 1)),
            Some(close) => match parse_items(toks, 2, close, 0) {
                Err(e) => Err(e),
                Ok((items, trailing)) => {
                    if items.len() == 0 {
                        return Err(mk_diag(DiagKind::EmptyFields, 1));
                    }
                    match check_final_not_last(&items) {
                        Some(d) => {
                            return Err(d);
                        },
                        None => {},
                    }
                    match check_trailing_final(&items, trailing) {
                        Some(d) => {
                            return Err(d);
                        },
                        None => {},
                    }
                    match check_items_mut(&items) {
                        Some(d) => {
                            return Err(d);
                        },
                        None => {},
                    }
                    if close + 1 != toks.len() {
                        return Err(mk_diag(DiagKind::ExpectedEnd, close + 1));
                    }
                    Ok(Spread { name: ident_text(&toks[0]), items })
                },
            },
        }
    }

    /// Renders the expansion block.
    pub fn expand(&self) -> (r: Vec<Tok>)
        ensures
            tv(r@) == sp_spread_render(self@),
    {
        let mut out: Vec<Tok> = Vec::new();
        push_tok(&mut out, Tok::Open(Delim::Brace));
        let mut i: usize = 0;
        proof {
            assert(tv(out@) =~= seq![TokV::Open(Delim::Brace)] + sp_let_sources_prefix(
                self@.items,
                0,
            ));
        }
        while i < self.items.len()
            invariant
                i <= self.items.len(),
                tv(out@) == seq![TokV::Open(Delim::Brace)] + sp_let_sources_prefix(
                    self@.items,
                    i as int,
                ),
            decreases self.items.len() - i,
        {
            match &self.items[i] {
                SpreadItem::SpreadList(l) => {
                    push_tok(&mut out, t_ident("let"));
                    push_tok(&mut out, Tok::Ident(l.binder.clone()));
                    push_tok(&mut out, t_punct('='));
                    append_copy(&mut out, &l.source);
                    push_tok(&mut out, t_punct(';'));
                },
                _ => {},
            }
            proof {
                assert(self.items@[i as int]@ == self@.items[i as int]);
                assert(tv(out@) =~= seq![TokV::Open(Delim::Brace)] + sp_let_sources_prefix(
                    self@.items,
                    i as int + 1,
                ));
            }
            i = i + 1;
        }
        push_tok(&mut out, Tok::Ident(self.name.clone()));
        push_tok(&mut out, Tok::Open(Delim::Brace));
        let ghost lead = seq![TokV::Open(Delim::Brace)] + sp_let_sources_prefix(
            self@.items,
            self@.items.len() as int,
        ) + seq![TokV::Ident(self@.name), TokV::Open(Delim::Brace)];
        proof {
            assert(tv(out@) =~= lead + sp_literal_body_prefix(self@.items, 0));
        }
        let mut j: usize = 0;
        while j < self.items.len()
            invariant
                j <= self.items.len(),
                tv(out@) == lead + sp_literal_body_prefix(self@.items, j as int),
                lead == seq![TokV::Open(Delim::Brace)] + sp_let_sources_prefix(
                    self@.items,
                    self@.items.len() as int,
                ) + seq![TokV::Ident(self@.name), TokV::Open(Delim::Brace)],
            decreases self.items.len() - j,
        {
            if j > 0 {
                push_tok(&mut out, t_punct(','));
            }
            let rendered = self.items[j].field_expansion();
            append_owned(&mut out, rendered);
            proof {
                assert(self.items@[j as int]@ == self@.items[j as int]);
                assert(tv(out@) =~= lead + sp_literal_body_prefix(self@.items, j as int + 1));
            }
            j = j + 1;
        }
        push_tok(&mut out, Tok::Close(Delim::Brace));
        push_tok(&mut out, Tok::Close(Delim::Brace));
        proof {
            assert(tv(out@) =~= sp_spread_render(self@));
        }
        out
    }
}

/// Expands a struct-spread invocation, or reports the diagnostic that
/// [`sp_spread`] fixes for this input.
pub fn spread(toks: &Vec<Tok>) -> (r: Result<Vec<Tok>, Diag>)
    ensures
        match r {
            Ok(out) => sp_spread(tv(toks@)) == Ok::<Seq<TokV>, Diag>(tv(out@)),
            Err(e) => sp_spread(tv(toks@)) == Err::<Seq<TokV>, Diag>(e),
        },
{
    match Spread::parse(toks) {
        Ok(a) => Ok(a.expand()),
        Err(e) => Err(e),
    }
}

proof fn lemma_no_lists_no_bindings(items: Seq<SpreadItemV>, n: int)
    requires
        forall|i: int| 0 <= i < n && i < items.len() ==> !(items[i] is SpreadList),
        n <= items.len(),
    ensures
        sp_let_sources_prefix(items, n) == Seq::<TokV>::empty(),
    decreases n,
{
    if n > 0 {
        lemma_no_lists_no_bindings(items, n - 1);
        assert(sp_let_sources_prefix(items, n) =~= Seq::<TokV>::empty());
    }
}

/// Law: an invocation whose items are plain fields only — no spread-list
/// and no final-spread — expands to the struct literal alone.  No binding
/// statement is emitted, and the literal body is exactly the items' field
/// assignments, one per field, in input order, comma-separated, with
/// nothing else before the closing braces.
pub proof fn lemma_plain_fields_literal(a: SpreadV)
    requires
        forall|i: int| 0 <= i < a.items.len() ==> a.items[i] is Field,
    ensures
        sp_spread_render(a) == seq![
            TokV::Open(Delim::Brace),
            TokV::Ident(a.name),
            TokV::Open(Delim::Brace),
        ] + sp_literal_body_prefix(a.items, a.items.len() as int) + seq![
            TokV::Close(Delim::Brace),
            TokV::Close(Delim::Brace),
        ],
{
    lemma_no_lists_no_bindings(a.items, a.items.len() as int);
    assert(sp_spread_render(a) =~= seq![
        TokV::Open(Delim::Brace),
        TokV::Ident(a.name),
        TokV::Open(Delim::Brace),
    ] + sp_literal_body_prefix(a.items, a.items.len() as int) + seq![
        TokV::Close(Delim::Brace),
        TokV::Close(Delim::Brace),
    ]);
}

proof fn lemma_no_early_final(items: Seq<SpreadItemV>)
    requires
        crate::common::sp_final_not_last_diag(items) is None,
    ensures
        forall|i: int| 0 <= i < items.len() - 1 ==> !(#[trigger] items[i] is FinalSpread),
    decreases items.len(),
{
    if items.len() > 1 {
        lemma_no_early_final(items.drop_first());
        assert forall|i: int| 0 <= i < items.len() - 1 implies !(#[trigger] items[i]
            is FinalSpread) by {
            if i > 0 {
                assert(items.drop_first()[i - 1] == items[i]);
            }
        }
    }
}

/// Law: a final-spread item is accepted only as the syntactically last
/// item.  Whenever the struct-spread grammar accepts an invocation, no
/// item before the last one is a final-spread — so a final-spread followed
/// by another item, or appearing twice, is never parsed; and an accepted
/// last final-spread had no trailing comma.  Inputs violating either rule
/// are rejected with a diagnostic by [`sp_spread_ast`] itself.
pub proof fn lemma_final_spread_last(s: Seq<TokV>)
    ensures
        sp_spread_ast(s) matches Ok(a) ==> forall|i: int|
            0 <= i < a.items.len() - 1 ==> !(#[trigger] a.items[i] is FinalSpread),
{
    match sp_spread_ast(s) {
        Ok(a) => {
            lemma_no_early_final(a.items);
        },
        Err(_) => {},
    }
}

proof fn lemma_fields_prefix_source_independent(l1: crate::common::SpreadListV, l2: crate::common::SpreadListV, n: int)
    requires
        l1.fields == l2.fields,
        l1.binder == l2.binder,
    ensures
        crate::common::sp_list_fields_prefix(l1, n) == crate::common::sp_list_fields_prefix(
            l2,
            n,
        ),
    decreases n,
{
    if n > 0 {
        lemma_fields_prefix_source_independent(l1, l2, n - 1);
    }
}

/// Law: a spread-list's source expression is evaluated exactly once,
/// however many fields are drawn from it.  The expansion emits a single
/// binding `let binder = source ;` for the list, and the list's struct-
/// literal entries do not depend on the source at all — replacing the
/// source by any other expression leaves them unchanged, because every
/// field is drawn from the binder.
pub proof fn lemma_source_read_once(l: crate::common::SpreadListV, other: Seq<TokV>)
    ensures
        sp_item_binding(SpreadItemV::SpreadList(l)) == seq![
            TokV::Ident("let"@),
            TokV::Ident(l.binder),
            TokV::Punct('=', false),
        ] + l.source + seq![TokV::Punct(';', false)],
        crate::common::sp_list_field_expansion(l) == crate::common::sp_list_field_expansion(
            crate::common::SpreadListV { source: other, ..l },
        ),
{
    let l2 = crate::common::SpreadListV { source: other, ..l };
    lemma_fields_prefix_source_independent(l, l2, l.fields.len() as int);
}

} // verus!
