//! The multi-binding generator: one binding statement per listed field.
//!
//! Each plain field becomes `let [mut] name = <modifier-applied source> ;`;
//! a spread-list becomes a single combined tuple binding that evaluates the
//! source once.  A final-spread item has no meaning in a flat binding list
//! and is rejected.

use vstd::prelude::*;

use crate::common::{check_items_final, parse_items, sp_item_let_expansion, sp_items,
    sp_items_final_diag, SpreadItem, SpreadItemV};
use crate::diag::{diag, mk_diag, Diag, DiagKind};
use crate::token::{append_owned, tv, views, Tok, TokV};

verus! {

/// A parsed binding-list invocation.
#[derive(Debug, PartialEq, Eq)]
pub struct SLet {
    pub items: Vec<SpreadItem>,
}

/// The mathematical value of a binding-list invocation.
pub struct SLetV {
    pub items: Seq<SpreadItemV>,
}

impl View for SLet {
    type V = SLetV;

    open spec fn view(&self) -> SLetV {
        SLetV { items: views(self.items@) }
    }
}

/// What the binding-list grammar accepts: a comma-separated item list
/// filling the whole input, at least one item, and no final-spread.
/// `mut` markers are the point of this form and are allowed.
pub open spec fn sp_slet_ast(s: Seq<TokV>) -> Result<SLetV, Diag> {
    match sp_items(s, 0, s.len() as int, 0) {
        Err(e) => Err(e),
        Ok((items, _trailing)) => if items.len() == 0 {
            Err(diag(DiagKind::EmptyFields, 0))
        } else {
            match sp_items_final_diag(items) {
                Some(d) => Err(d),
                None => Ok(SLetV { items }),
            }
        },
    }
}

/// The binding statements of the first `n` items, concatenated in input
/// order with no separators.
pub open spec fn sp_let_body_prefix(items: Seq<SpreadItemV>, n: int) -> Seq<TokV>
    decreases n,
{
    if n <= 0 {
        Seq::empty()
    } else {
        sp_let_body_prefix(items, n - 1) + sp_item_let_expansion(items[n - 1])
    }
}

/// The full expansion: every item's binding statements, in input order.
pub open spec fn sp_slet_render(a: SLetV) -> Seq<TokV> {
    sp_let_body_prefix(a.items, a.items.len() as int)
}

/// What the binding-list generator returns on every input.
pub open spec fn sp_slet(s: Seq<TokV>) -> Result<Seq<TokV>, Diag> {
    match sp_slet_ast(s) {
        Ok(a) => Ok(sp_slet_render(a)),
        Err(e) => Err(e),
    }
}

impl SLet {
    /// Parses a binding-list invocation filling the whole input.
    pub fn parse(toks: &Vec<Tok>) -> (r: Result<SLet, Diag>)
        ensures
            match r {
                Ok(a) => sp_slet_ast(tv(toks@)) == Ok::<SLetV, Diag>(a@),
                Err(e) => sp_slet_ast(tv(toks@)) == Err::<SLetV, Diag>(e),
            },
    {
        match parse_items(toks, 0, toks.len(), 0) {
            Err(e) => Err(e),
            Ok((items, _trailing)) => {
                if items.len() == 0 {
                    return Err(mk_diag(DiagKind::EmptyFields, 0));
                }
                match check_items_final(&items) {
                    Some(d) => {
                        return Err(d);
                    },
                    None => {},
                }
                Ok(SLet { items })
            },
        }
    }

    /// Renders the binding statements.
    pub fn expand(&self) -> (r: Vec<Tok>)
        ensures
            tv(r@) == sp_slet_render(self@),
    {
        let mut out: Vec<Tok> = Vec::new();
        let mut i: usize = 0;
        proof {
            assert(tv(out@) =~= sp_let_body_prefix(self@.items, 0));
        }
        while i < self.items.len()
            invariant
                i <= self.items.len(),
                tv(out@) == sp_let_body_prefix(self@.items, i as int),
            decreases self.items.len() - i,
        {
            let rendered = self.items[i].let_expansion();
            append_owned(&mut out, rendered);
            proof {
                assert(self.items@[i as int]@ == self@.items[i as int]);
                assert(tv(out@) =~= sp_let_body_prefix(self@.items, i as int + 1));
            }
            i = i + 1;
        }
        out
    }
}

/// Expands a binding-list invocation, or reports the diagnostic that
/// [`sp_slet`] fixes for this input.
pub fn slet(toks: &Vec<Tok>) -> (r: Result<Vec<Tok>, Diag>)
    ensures
        match r {
            Ok(out) => sp_slet(tv(toks@)) == Ok::<Seq<TokV>, Diag>(tv(out@)),
            Err(e) => sp_slet(tv(toks@)) == Err::<Seq<TokV>, Diag>(e),
        },
{
    match SLet::parse(toks) {
        Ok(a) => Ok(a.expand()),
        Err(e) => Err(e),
    }
}

} // verus!
