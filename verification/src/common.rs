//! The shared field-description grammar: modifiers, fields, spread-lists
//! and spread items, together with their expansions.
//!
//! Every parser exists twice: a specification-level function (`sp_*`)
//! defining exactly which inputs are accepted, what is parsed and which
//! diagnostic is reported otherwise, and an executable function proved to
//! return precisely that.  Every expansion likewise has a specification
//! renderer that pins the emitted token sequence exactly.

use vstd::prelude::*;

use crate::diag::{diag, mk_diag, Diag, DiagKind};
use crate::scan::{expr_end, lemma_expr_end_bounds, lemma_scan_close_bounds, scan_close,
    sp_expr_end, sp_scan_close};
use crate::token::{append_copy, append_owned, copy_range, dec_chars, dec_digit, dec_string, ident_is,
    is_ident, is_joint_punct, is_open, is_punct, is_punct_v, push_tok, t_ident, t_joint, t_punct,
    toks_clone, tv, views, Delim, Tok, TokV};
use vstd::string::StringExecFns;

verus! {

/// A per-field transform applied to the field's source expression.
#[derive(Debug, PartialEq, Eq)]
pub enum SpreadModifier {
    /// No prefix: the expression is used unchanged.
    Plain,
    /// `&`: a reference to the expression.
    Ref,
    /// `&mut`: a mutable reference to the expression.
    RefMut,
    /// `>`: the expression converted with `.into()`.
    Convert,
    /// `+`: the expression duplicated with `.clone()`.
    Duplicate,
    /// `+>`: the expression duplicated, then converted.
    DupConvert,
    /// `[path]`: the expression passed to the function at the path.
    Custom(Vec<Tok>),
    /// `[path] &`: a reference to the expression passed to the function.
    CustomRef(Vec<Tok>),
    /// `[path] &mut`: a mutable reference passed to the function.
    CustomRefMut(Vec<Tok>),
}

/// The mathematical value of a modifier.
pub enum ModifierV {
    Plain,
    Ref,
    RefMut,
    Convert,
    Duplicate,
    DupConvert,
    Custom(Seq<TokV>),
    CustomRef(Seq<TokV>),
    CustomRefMut(Seq<TokV>),
}

impl View for SpreadModifier {
    type V = ModifierV;

    open spec fn view(&self) -> ModifierV {
        match self {
            SpreadModifier::Plain => ModifierV::Plain,
            SpreadModifier::Ref => ModifierV::Ref,
            SpreadModifier::RefMut => ModifierV::RefMut,
            SpreadModifier::Convert => ModifierV::Convert,
            SpreadModifier::Duplicate => ModifierV::Duplicate,
            SpreadModifier::DupConvert => ModifierV::DupConvert,
            SpreadModifier::Custom(p) => ModifierV::Custom(tv(p@)),
            SpreadModifier::CustomRef(p) => ModifierV::CustomRef(tv(p@)),
            SpreadModifier::CustomRefMut(p) => ModifierV::CustomRefMut(tv(p@)),
        }
    }
}

/// One field description: an optional `mut` binding marker, a modifier, the
/// field name, and an optional explicit value expression.  `pos` is the
/// index of the field's first token, kept for diagnostics.
#[derive(Debug, PartialEq, Eq)]
pub struct Field {
    pub pos: usize,
    pub is_mut: bool,
    pub modifier: SpreadModifier,
    pub name: String,
    pub value: Option<Vec<Tok>>,
}

/// The mathematical value of a field.
pub struct FieldV {
    pub pos: int,
    pub is_mut: bool,
    pub modifier: ModifierV,
    pub name: Seq<char>,
    pub value: Option<Seq<TokV>>,
}

impl View for Field {
    type V = FieldV;

    open spec fn view(&self) -> FieldV {
        FieldV {
            pos: self.pos as int,
            is_mut: self.is_mut,
            modifier: self.modifier@,
            name: self.name@,
            value: match self.value {
                Some(v) => Some(tv(v@)),
                None => None,
            },
        }
    }
}

/// A subset of fields drawn from one source expression, evaluated once
/// through the synthesized `binder` identifier.  `pos` is the index of the
/// opening brace.
#[derive(Debug, PartialEq, Eq)]
pub struct SpreadList {
    pub pos: usize,
    pub fields: Vec<Field>,
    pub source: Vec<Tok>,
    pub binder: String,
}

/// The mathematical value of a spread-list.
pub struct SpreadListV {
    pub pos: int,
    pub fields: Seq<FieldV>,
    pub source: Seq<TokV>,
    pub binder: Seq<char>,
}

impl View for SpreadList {
    type V = SpreadListV;

    open spec fn view(&self) -> SpreadListV {
        SpreadListV {
            pos: self.pos as int,
            fields: views(self.fields@),
            source: tv(self.source@),
            binder: self.binder@,
        }
    }
}

/// One item of a field list: a single field, a spread-list, or the trailing
/// "all remaining fields from this expression" item.
#[derive(Debug, PartialEq, Eq)]
pub enum SpreadItem {
    Field(Field),
    SpreadList(SpreadList),
    /// The position of the leading `..` and the rest-expression.
    FinalSpread(usize, Vec<Tok>),
}

/// The mathematical value of a spread item.
pub enum SpreadItemV {
    Field(FieldV),
    SpreadList(SpreadListV),
    FinalSpread(int, Seq<TokV>),
}

impl View for SpreadItem {
    type V = SpreadItemV;

    open spec fn view(&self) -> SpreadItemV {
        match self {
            SpreadItem::Field(f) => SpreadItemV::Field(f@),
            SpreadItem::SpreadList(l) => SpreadItemV::SpreadList(l@),
            SpreadItem::FinalSpread(p, src) => SpreadItemV::FinalSpread(*p as int, tv(src@)),
        }
    }
}

/// The text of an identifier token.
pub open spec fn ident_of(t: TokV) -> Seq<char> {
    match t {
        TokV::Ident(c) => c,
        _ => Seq::empty(),
    }
}

/// Executable counterpart of [`ident_of`].
pub fn ident_text(t: &Tok) -> (r: String)
    ensures
        r@ == ident_of(t@),
{
    match t {
        Tok::Ident(s) => s.clone(),
        _ => String::new(),
    }
}

/// Which modifier, if any, prefixes the field name at `i`.
///
/// `&` (then `mut` for a mutable reference), `>`, `+` (then `>` for
/// duplicate-then-convert), or a bracketed path (then `&`, then `mut`).
/// With the cursor directly at an identifier there is no modifier; any
/// other token is a diagnostic.
pub open spec fn sp_modifier(s: Seq<TokV>, i: int) -> Result<(ModifierV, int), Diag> {
    if i >= s.len() {
        Err(diag(DiagKind::ExpectedField, s.len() as int))
    } else if is_punct_v(s[i], '&') {
        if i + 1 < s.len() && s[i + 1] == TokV::Ident("mut"@) {
            Ok((ModifierV::RefMut, i + 2))
        } else if i + 1 < s.len() && s[i + 1] is Ident {
            Ok((ModifierV::Ref, i + 1))
        } else {
            Err(diag(DiagKind::ExpectedName, i + 1))
        }
    } else if is_punct_v(s[i], '>') {
        Ok((ModifierV::Convert, i + 1))
    } else if is_punct_v(s[i], '+') {
        if i + 1 < s.len() && is_punct_v(s[i + 1], '>') {
            Ok((ModifierV::DupConvert, i + 2))
        } else if i + 1 < s.len() && s[i + 1] is Ident {
            Ok((ModifierV::Duplicate, i + 1))
        } else {
            Err(diag(DiagKind::ExpectedName, i + 1))
        }
    } else if s[i] == TokV::Open(Delim::Bracket) {
        match sp_scan_close(s, i + 1, 0) {
            None => Err(diag(DiagKind::UnclosedGroup, i)),
            Some(close) => if close == i + 1 {
                Err(diag(DiagKind::ExpectedPath, i + 1))
            } else {
                let path = s.subrange(i + 1, close);
                let j = close + 1;
                if j < s.len() && is_punct_v(s[j], '&') {
                    if j + 1 < s.len() && s[j + 1] == TokV::Ident("mut"@) {
                        Ok((ModifierV::CustomRefMut(path), j + 2))
                    } else if j + 1 < s.len() && s[j + 1] is Ident {
                        Ok((ModifierV::CustomRef(path), j + 1))
                    } else {
                        Err(diag(DiagKind::ExpectedName, j + 1))
                    }
                } else {
                    Ok((ModifierV::Custom(path), j))
                }
            },
        }
    } else if s[i] is Ident {
        Ok((ModifierV::Plain, i))
    } else {
        Err(diag(DiagKind::ExpectedField, i))
    }
}

pub proof fn lemma_sp_modifier_next(s: Seq<TokV>, i: int)
    requires
        0 <= i,
    ensures
        sp_modifier(s, i) matches Ok((m, j)) ==> i <= j <= s.len(),
{
    if i < s.len() && s[i] == TokV::Open(Delim::Bracket) {
        lemma_scan_close_bounds(s, i + 1, 0);
    }
}

/// Whether the executable result `r` is exactly what [`sp_modifier`] says.
pub open spec fn modifier_res_matches(
    s: Seq<TokV>,
    i: int,
    r: Result<(SpreadModifier, usize), Diag>,
) -> bool {
    match r {
        Ok((m, j)) => sp_modifier(s, i) == Ok::<(ModifierV, int), Diag>((m@, j as int)),
        Err(e) => sp_modifier(s, i) == Err::<(ModifierV, int), Diag>(e),
    }
}

impl SpreadModifier {
    /// Parses the modifier, if any, prefixing the field name at `i`.
    pub fn parse(toks: &Vec<Tok>, i: usize) -> (r: Result<(SpreadModifier, usize), Diag>)
        ensures
            modifier_res_matches(tv(toks@), i as int, r),
    {
        let s_len = toks.len();
        if i >= s_len {
            Err(mk_diag(DiagKind::ExpectedField, s_len))
        } else if is_punct(&toks[i], '&') {
            if i + 1 < s_len && ident_is(&toks[i + 1], "mut") {
                Ok((SpreadModifier::RefMut, i + 2))
            } else if i + 1 < s_len && is_ident(&toks[i + 1]) {
                Ok((SpreadModifier::Ref, i + 1))
            } else {
                Err(mk_diag(DiagKind::ExpectedName, i + 1))
            }
        } else if is_punct(&toks[i], '>') {
            Ok((SpreadModifier::Convert, i + 1))
        } else if is_punct(&toks[i], '+') {
            if i + 1 < s_len && is_punct(&toks[i + 1], '>') {
                Ok((SpreadModifier::DupConvert, i + 2))
            } else if i + 1 < s_len && is_ident(&toks[i + 1]) {
                Ok((SpreadModifier::Duplicate, i + 1))
            } else {
                Err(mk_diag(DiagKind::ExpectedName, i + 1))
            }
        } else if is_open(&toks[i], Delim::Bracket) {
            match scan_close(toks, i + 1, 0) {
                None => Err(mk_diag(DiagKind::UnclosedGroup, i)),
                Some(close) => if close == i + 1 {
                    Err(mk_diag(DiagKind::ExpectedPath, i + 1))
                } else {
                    let path = copy_range(toks, i + 1, close);
                    let j = close + 1;
                    if j < s_len && is_punct(&toks[j], '&') {
                        if j + 1 < s_len && ident_is(&toks[j + 1], "mut") {
                            Ok((SpreadModifier::CustomRefMut(path), j + 2))
                        } else if j + 1 < s_len && is_ident(&toks[j + 1]) {
                            Ok((SpreadModifier::CustomRef(path), j + 1))
                        } else {
                            Err(mk_diag(DiagKind::ExpectedName, j + 1))
                        }
                    } else {
                        Ok((SpreadModifier::Custom(path), j))
                    }
                },
            }
        } else if is_ident(&toks[i]) {
            Ok((SpreadModifier::Plain, i))
        } else {
            Err(mk_diag(DiagKind::ExpectedField, i))
        }
    }
}

/// Whether the token at `j` is a `:` introducing a field value: a colon
/// that does not begin a `::` path separator.
pub open spec fn colon_starts_value(s: Seq<TokV>, j: int) -> bool {
    is_punct_v(s[j], ':') && !(s[j] == TokV::Punct(':', true) && j + 1 < s.len() && is_punct_v(
        s[j + 1],
        ':',
    ))
}

/// Executable counterpart of [`colon_starts_value`].
pub fn colon_starts_value_at(toks: &Vec<Tok>, j: usize) -> (r: bool)
    requires
        j < toks.len(),
    ensures
        r == colon_starts_value(tv(toks@), j as int),
{
    is_punct(&toks[j], ':') && !(is_joint_punct(&toks[j], ':') && j + 1 < toks.len() && is_punct(
        &toks[j + 1],
        ':',
    ))
}

/// One field: `[mut] [modifier] name [: value]`.  The value expression,
/// when present, runs to the next comma or closing delimiter and must not
/// be empty.
pub open spec fn sp_field(s: Seq<TokV>, i: int) -> Result<(FieldV, int), Diag> {
    let pos = i;
    let has_mut = i < s.len() && s[i] == TokV::Ident("mut"@);
    let i1 = if has_mut {
        i + 1
    } else {
        i
    };
    match sp_modifier(s, i1) {
        Err(e) => Err(e),
        Ok((m, i2)) => if i2 < s.len() && s[i2] is Ident {
            let name = ident_of(s[i2]);
            let i3 = i2 + 1;
            if i3 < s.len() && colon_starts_value(s, i3) {
                let vend = sp_expr_end(s, i3 + 1, 0);
                if vend == i3 + 1 {
                    Err(diag(DiagKind::ExpectedExpr, i3 + 1))
                } else {
                    Ok(
                        (
                            FieldV {
                                pos,
                                is_mut: has_mut,
                                modifier: m,
                                name,
                                value: Some(s.subrange(i3 + 1, vend)),
                            },
                            vend,
                        ),
                    )
                }
            } else {
                Ok((FieldV { pos, is_mut: has_mut, modifier: m, name, value: None }, i3))
            }
        } else {
            Err(diag(DiagKind::ExpectedName, i2))
        },
    }
}

pub proof fn lemma_sp_field_next(s: Seq<TokV>, i: int)
    requires
        0 <= i,
    ensures
        sp_field(s, i) matches Ok((f, j)) ==> i < j <= s.len(),
{
    let has_mut = i < s.len() && s[i] == TokV::Ident("mut"@);
    let i1 = if has_mut {
        i + 1
    } else {
        i
    };
    lemma_sp_modifier_next(s, i1);
    match sp_modifier(s, i1) {
        Ok((m, i2)) => {
            if i2 < s.len() && s[i2] is Ident {
                let i3 = i2 + 1;
                if i3 < s.len() && colon_starts_value(s, i3) {
                    lemma_expr_end_bounds(s, i3 + 1, 0);
                }
            }
        },
        Err(_) => {},
    }
}

/// Whether the executable result `r` is exactly what [`sp_field`] says.
pub open spec fn field_res_matches(s: Seq<TokV>, i: int, r: Result<(Field, usize), Diag>) -> bool {
    match r {
        Ok((f, j)) => sp_field(s, i) == Ok::<(FieldV, int), Diag>((f@, j as int)),
        Err(e) => sp_field(s, i) == Err::<(FieldV, int), Diag>(e),
    }
}

impl Field {
    /// Parses one field at `i`.
    pub fn parse(toks: &Vec<Tok>, i: usize) -> (r: Result<(Field, usize), Diag>)
        ensures
            field_res_matches(tv(toks@), i as int, r),
    {
        let pos = i;
        let has_mut = i < toks.len() && ident_is(&toks[i], "mut");
        let i1 = if has_mut {
            i + 1
        } else {
            i
        };
        match SpreadModifier::parse(toks, i1) {
            Err(e) => Err(e),
            Ok((m, i2)) => if i2 < toks.len() && is_ident(&toks[i2]) {
                let name = ident_text(&toks[i2]);
                let i3 = i2 + 1;
                if i3 < toks.len() && colon_starts_value_at(toks, i3) {
                    let vend = expr_end(toks, i3 + 1, 0);
                    if vend == i3 + 1 {
                        Err(mk_diag(DiagKind::ExpectedExpr, i3 + 1))
                    } else {
                        let value = copy_range(toks, i3 + 1, vend);
                        Ok(
                            (
                                Field {
                                    pos,
                                    is_mut: has_mut,
                                    modifier: m,
                                    name,
                                    value: Some(value),
                                },
                                vend,
                            ),
                        )
                    }
                } else {
                    Ok((Field { pos, is_mut: has_mut, modifier: m, name, value: None }, i3))
                }
            } else {
                Err(mk_diag(DiagKind::ExpectedName, i2))
            },
        }
    }
}

/// The underscore-joined concatenation of the field names of a list.
pub open spec fn binder_names(fields: Seq<FieldV>) -> Seq<char>
    decreases fields.len(),
{
    if fields.len() == 0 {
        Seq::empty()
    } else {
        binder_names(fields.drop_last()) + seq!['_'] + fields.last().name
    }
}

/// The synthesized intermediate-binding identifier of the `k`-th item's
/// spread-list: an underscore, the item position in decimal, then each
/// field name prefixed by an underscore.  The position keeps binders of
/// several spread-lists in one invocation distinct even when their field
/// names coincide.
pub open spec fn binder_chars(k: int, fields: Seq<FieldV>) -> Seq<char> {
    seq!['_'] + dec_chars(k as nat) + binder_names(fields)
}

/// Executable counterpart of [`binder_chars`].
pub fn binder_string(k: usize, fields: &Vec<Field>) -> (r: String)
    ensures
        r@ == binder_chars(k as int, views(fields@)),
{
    let mut b: String = "_".to_owned();
    let ks = dec_string(k);
    b.append(ks.as_str());
    proof {
        reveal_strlit("_");
        assert(views(fields@).subrange(0, 0) =~= Seq::<FieldV>::empty());
        assert(b@ =~= seq!['_'] + dec_chars(k as nat) + binder_names(
            views(fields@).subrange(0, 0),
        ));
    }
    let mut i: usize = 0;
    while i < fields.len()
        invariant
            i <= fields.len(),
            b@ == seq!['_'] + dec_chars(k as nat) + binder_names(
                views(fields@).subrange(0, i as int),
            ),
        decreases fields.len() - i,
    {
        b.append("_");
        b.append(fields[i].name.as_str());
        proof {
            let fv = views(fields@);
            assert(fv.subrange(0, i as int + 1).drop_last() =~= fv.subrange(0, i as int));
            assert(fv.subrange(0, i as int + 1).last() == fields@[i as int]@);
            reveal_strlit("_");
            assert(b@ =~= seq!['_'] + dec_chars(k as nat) + binder_names(
                fv.subrange(0, i as int + 1),
            ));
        }
        i = i + 1;
    }
    proof {
        assert(views(fields@).subrange(0, fields@.len() as int) =~= views(fields@));
    }
    b
}

proof fn lemma_dec_chars_len(n: nat)
    ensures
        dec_chars(n).len() >= 1,
    decreases n,
{
    if n >= 10 {
        lemma_dec_chars_len(n / 10);
    }
}

proof fn lemma_dec_chars_no_underscore(n: nat)
    ensures
        forall|i: int| 0 <= i < dec_chars(n).len() ==> #[trigger] dec_chars(n)[i] != '_',
    decreases n,
{
    if n >= 10 {
        lemma_dec_chars_no_underscore(n / 10);
        assert forall|i: int| 0 <= i < dec_chars(n).len() implies #[trigger] dec_chars(n)[i]
            != '_' by {
            if i < dec_chars(n).len() - 1 {
                assert(dec_chars(n)[i] == dec_chars(n / 10)[i]);
            }
        }
    }
}

proof fn lemma_dec_digit_inj(a: int, b: int)
    requires
        0 <= a < 10,
        0 <= b < 10,
        dec_digit(a) == dec_digit(b),
    ensures
        a == b,
{
}

proof fn lemma_dec_chars_inj(n1: nat, n2: nat)
    requires
        dec_chars(n1) == dec_chars(n2),
    ensures
        n1 == n2,
    decreases n1,
{
    lemma_dec_chars_len(n1);
    lemma_dec_chars_len(n2);
    if n1 < 10 && n2 < 10 {
        assert(dec_chars(n1)[0] == dec_digit(n1 as int));
        assert(dec_chars(n2)[0] == dec_digit(n2 as int));
        lemma_dec_digit_inj(n1 as int, n2 as int);
    } else if n1 < 10 && n2 >= 10 {
        lemma_dec_chars_len(n2 / 10);
        assert(false);
    } else if n1 >= 10 && n2 < 10 {
        lemma_dec_chars_len(n1 / 10);
        assert(false);
    } else {
        let e1 = dec_chars(n1 / 10);
        let e2 = dec_chars(n2 / 10);
        let d1 = dec_digit((n1 % 10) as int);
        let d2 = dec_digit((n2 % 10) as int);
        assert(dec_chars(n1) == e1.push(d1));
        assert(dec_chars(n2) == e2.push(d2));
        assert(e1.push(d1)[e1.len() as int] == d1);
        assert(e2.push(d2)[e2.len() as int] == d2);
        assert(e1.push(d1).drop_last() =~= e1);
        assert(e2.push(d2).drop_last() =~= e2);
        assert(e1 == e2);
        assert(e1.len() == e2.len());
        assert(d1 == d2);
        lemma_dec_digit_inj((n1 % 10) as int, (n2 % 10) as int);
        lemma_dec_chars_inj(n1 / 10, n2 / 10);
        vstd::arithmetic::div_mod::lemma_fundamental_div_mod(n1 as int, 10);
        vstd::arithmetic::div_mod::lemma_fundamental_div_mod(n2 as int, 10);
    }
}

proof fn lemma_binder_names_starts(fs: Seq<FieldV>)
    ensures
        binder_names(fs).len() > 0 ==> binder_names(fs)[0] == '_',
    decreases fs.len(),
{
    if fs.len() == 1 {
        assert(binder_names(fs) =~= seq!['_'] + fs.last().name);
    } else if fs.len() > 1 {
        lemma_binder_names_starts(fs.drop_last());
        if binder_names(fs.drop_last()).len() > 0 {
            assert(binder_names(fs)[0] == binder_names(fs.drop_last())[0]);
        } else {
            assert(binder_names(fs)[0] == '_');
        }
    }
}

/// Law: the synthesized binders of two spread-lists standing at different
/// item positions of one invocation are distinct identifiers, whatever
/// their field names are — the decimal position after the leading
/// underscore differs, and the field-name part always begins with an
/// underscore, which no decimal digit is.
pub proof fn lemma_binder_distinct(k1: int, fs1: Seq<FieldV>, k2: int, fs2: Seq<FieldV>)
    requires
        0 <= k1,
        0 <= k2,
        k1 != k2,
    ensures
        binder_chars(k1, fs1) != binder_chars(k2, fs2),
{
    let d1 = dec_chars(k1 as nat);
    let d2 = dec_chars(k2 as nat);
    let m1 = binder_names(fs1);
    let m2 = binder_names(fs2);
    let b1 = binder_chars(k1, fs1);
    let b2 = binder_chars(k2, fs2);
    lemma_dec_chars_len(k1 as nat);
    lemma_dec_chars_len(k2 as nat);
    lemma_dec_chars_no_underscore(k1 as nat);
    lemma_dec_chars_no_underscore(k2 as nat);
    lemma_binder_names_starts(fs1);
    lemma_binder_names_starts(fs2);
    if b1 == b2 {
        assert(b1.len() == 1 + d1.len() + m1.len());
        assert(b2.len() == 1 + d2.len() + m2.len());
        if d1.len() == d2.len() {
            assert(d1 =~= d2) by {
                assert forall|i: int| 0 <= i < d1.len() implies d1[i] == d2[i] by {
                    assert(b1[1 + i] == d1[i]);
                    assert(b2[1 + i] == d2[i]);
                }
            }
            lemma_dec_chars_inj(k1 as nat, k2 as nat);
            assert(false);
        } else if d1.len() < d2.len() {
            assert(m1.len() > 0);
            assert(b1[1 + d1.len() as int] == m1[0]);
            assert(b2[1 + d1.len() as int] == d2[d1.len() as int]);
            assert(false);
        } else {
            assert(m2.len() > 0);
            assert(b2[1 + d2.len() as int] == m2[0]);
            assert(b1[1 + d2.len() as int] == d1[d2.len() as int]);
            assert(false);
        }
    }
}

/// A comma-separated run of fields filling `[i, end)` exactly, with an
/// optional trailing comma.  The empty run is accepted here; whether it is
/// allowed is for the caller to decide.  A field whose expression swallows
/// the region's closing delimiter reports that delimiter unclosed.
pub open spec fn sp_fields(s: Seq<TokV>, i: int, end: int) -> Result<Seq<FieldV>, Diag>
    decreases end - i,
        when 0 <= i
        via sp_fields_dec
{
    if i >= end {
        Ok(Seq::empty())
    } else {
        match sp_field(s, i) {
            Err(e) => Err(e),
            Ok((f, j)) => if j == end {
                Ok(seq![f])
            } else if j > end {
                Err(diag(DiagKind::UnclosedGroup, end))
            } else if is_punct_v(s[j], ',') {
                match sp_fields(s, j + 1, end) {
                    Err(e) => Err(e),
                    Ok(rest) => Ok(seq![f] + rest),
                }
            } else {
                Err(diag(DiagKind::ExpectedComma, j))
            },
        }
    }
}

#[via_fn]
proof fn sp_fields_dec(s: Seq<TokV>, i: int, end: int) {
    if 0 <= i {
        lemma_sp_field_next(s, i);
    }
}

/// Whether the executable result `r` is exactly what [`sp_fields`] says.
pub open spec fn fields_res_matches(
    s: Seq<TokV>,
    i: int,
    end: int,
    r: Result<(Vec<Field>, usize), Diag>,
) -> bool {
    match r {
        Ok((fs, j)) => sp_fields(s, i, end) == Ok::<Seq<FieldV>, Diag>(views(fs@)) && j == end,
        Err(e) => sp_fields(s, i, end) == Err::<Seq<FieldV>, Diag>(e),
    }
}

/// Parses the comma-separated fields filling `[i, end)`.
pub fn parse_fields(toks: &Vec<Tok>, i: usize, end: usize) -> (r: Result<(Vec<Field>, usize),
    Diag>)
    requires
        end <= toks.len(),
    ensures
        fields_res_matches(tv(toks@), i as int, end as int, r),
    decreases end - i,
{
    if i >= end {
        proof {
            assert(views(Seq::<Field>::empty()) =~= Seq::<FieldV>::empty());
        }
        Ok((Vec::new(), end))
    } else {
        match Field::parse(toks, i) {
            Err(e) => Err(e),
            Ok((f, j)) => {
                proof {
                    lemma_sp_field_next(tv(toks@), i as int);
                }
                if j == end {
                    let mut out: Vec<Field> = Vec::new();
                    let ghost fg = f;
                    out.push(f);
                    proof {
                        assert(views(out@) =~= seq![fg@]);
                    }
                    Ok((out, end))
                } else if j > end {
                    Err(mk_diag(DiagKind::UnclosedGroup, end))
                } else if is_punct(&toks[j], ',') {
                    match parse_fields(toks, j + 1, end) {
                        Err(e) => Err(e),
                        Ok((mut rest, _)) => {
                            let ghost restg = rest@;
                            let ghost fg = f;
                            let mut out: Vec<Field> = Vec::new();
                            out.push(f);
                            out.append(&mut rest);
                            proof {
                                assert(views(out@) =~= seq![fg@] + views(restg));
                            }
                            Ok((out, end))
                        },
                    }
                } else {
                    Err(mk_diag(DiagKind::ExpectedComma, j))
                }
            },
        }
    }
}

/// A spread-list at the `k`-th item position: `{ field, ... } in source`.
/// The field list must not be empty, `in` must follow the braces, and the
/// source expression runs to the next comma and must not be empty.
pub open spec fn sp_spread_list(s: Seq<TokV>, i: int, k: int) -> Result<(SpreadListV, int), Diag> {
    match sp_scan_close(s, i + 1, 0) {
        None => Err(diag(DiagKind::UnclosedGroup, i)),
        Some(close) => match sp_fields(s, i + 1, close) {
            Err(e) => Err(e),
            Ok(fields) => if fields.len() == 0 {
                Err(diag(DiagKind::EmptyFields, i))
            } else {
                let j = close + 1;
                if j < s.len() && s[j] == TokV::Ident("in"@) {
                    let send = sp_expr_end(s, j + 1, 0);
                    if send == j + 1 {
                        Err(diag(DiagKind::ExpectedExpr, j + 1))
                    } else {
                        Ok(
                            (
                                SpreadListV {
                                    pos: i,
                                    fields,
                                    source: s.subrange(j + 1, send),
                                    binder: binder_chars(k, fields),
                                },
                                send,
                            ),
                        )
                    }
                } else {
                    Err(diag(DiagKind::ExpectedIn, j))
                }
            },
        },
    }
}

pub proof fn lemma_sp_list_next(s: Seq<TokV>, i: int, k: int)
    requires
        0 <= i,
    ensures
        sp_spread_list(s, i, k) matches Ok((l, j)) ==> i < j <= s.len(),
{
    lemma_scan_close_bounds(s, i + 1, 0);
    match sp_scan_close(s, i + 1, 0) {
        Some(close) => {
            if close + 2 <= s.len() {
                lemma_expr_end_bounds(s, close + 2, 0);
            }
        },
        None => {},
    }
}

/// Whether the executable result `r` is exactly what [`sp_spread_list`]
/// says.
pub open spec fn list_res_matches(
    s: Seq<TokV>,
    i: int,
    k: int,
    r: Result<(SpreadList, usize), Diag>,
) -> bool {
    match r {
        Ok((l, j)) => sp_spread_list(s, i, k) == Ok::<(SpreadListV, int), Diag>((l@, j as int)),
        Err(e) => sp_spread_list(s, i, k) == Err::<(SpreadListV, int), Diag>(e),
    }
}

impl SpreadList {
    /// Parses a spread-list whose opening brace stands at `i`, as the
    /// `k`-th item of its invocation.
    pub fn parse(toks: &Vec<Tok>, i: usize, k: usize) -> (r: Result<(SpreadList, usize), Diag>)
        requires
            i < toks.len(),
        ensures
            list_res_matches(tv(toks@), i as int, k as int, r),
    {
        match scan_close(toks, i + 1, 0) {
            None => Err(mk_diag(DiagKind::UnclosedGroup, i)),
            Some(close) => match parse_fields(toks, i + 1, close) {
                Err(e) => Err(e),
                Ok((fields, _)) => if fields.len() == 0 {
                    Err(mk_diag(DiagKind::EmptyFields, i))
                } else {
                    let j = close + 1;
                    if j < toks.len() && ident_is(&toks[j], "in") {
                        let send = expr_end(toks, j + 1, 0);
                        if send == j + 1 {
                            Err(mk_diag(DiagKind::ExpectedExpr, j + 1))
                        } else {
                            let source = copy_range(toks, j + 1, send);
                            let binder = binder_string(k, &fields);
                            Ok((SpreadList { pos: i, fields, source, binder }, send))
                        }
                    } else {
                        Err(mk_diag(DiagKind::ExpectedIn, j))
                    }
                },
            },
        }
    }
}

/// Whether the tokens at `i` begin a final-spread item: a joint `.`
/// followed by another `.`.
pub open spec fn dotdot_at(s: Seq<TokV>, i: int) -> bool {
    s[i] == TokV::Punct('.', true) && i + 1 < s.len() && is_punct_v(s[i + 1], '.')
}

/// One spread item at the `k`-th position: dispatches on the first token.
/// A brace opens a spread-list, `..` begins the final-spread, anything
/// else must be a field.
pub open spec fn sp_spread_item(s: Seq<TokV>, i: int, k: int) -> Result<(SpreadItemV, int),
    Diag> {
    if i >= s.len() {
        Err(diag(DiagKind::ExpectedField, s.len() as int))
    } else if s[i] == TokV::Open(Delim::Brace) {
        match sp_spread_list(s, i, k) {
            Err(e) => Err(e),
            Ok((l, j)) => Ok((SpreadItemV::SpreadList(l), j)),
        }
    } else if dotdot_at(s, i) {
        let e0 = i + 2;
        let vend = sp_expr_end(s, e0, 0);
        if vend == e0 {
            Err(diag(DiagKind::ExpectedExpr, e0))
        } else {
            Ok((SpreadItemV::FinalSpread(i, s.subrange(e0, vend)), vend))
        }
    } else {
        match sp_field(s, i) {
            Err(e) => Err(e),
            Ok((f, j)) => Ok((SpreadItemV::Field(f), j)),
        }
    }
}

pub proof fn lemma_sp_item_next(s: Seq<TokV>, i: int, k: int)
    requires
        0 <= i,
    ensures
        sp_spread_item(s, i, k) matches Ok((it, j)) ==> i < j <= s.len(),
{
    if i < s.len() {
        if s[i] == TokV::Open(Delim::Brace) {
            lemma_sp_list_next(s, i, k);
        } else if dotdot_at(s, i) {
            lemma_expr_end_bounds(s, i + 2, 0);
        } else {
            lemma_sp_field_next(s, i);
        }
    }
}

/// Whether the executable result `r` is exactly what [`sp_spread_item`]
/// says.
pub open spec fn item_res_matches(
    s: Seq<TokV>,
    i: int,
    k: int,
    r: Result<(SpreadItem, usize), Diag>,
) -> bool {
    match r {
        Ok((it, j)) => sp_spread_item(s, i, k) == Ok::<(SpreadItemV, int), Diag>((it@, j as int)),
        Err(e) => sp_spread_item(s, i, k) == Err::<(SpreadItemV, int), Diag>(e),
    }
}

impl SpreadItem {
    /// Parses one spread item at `i`, as the `k`-th item of its
    /// invocation.
    pub fn parse(toks: &Vec<Tok>, i: usize, k: usize) -> (r: Result<(SpreadItem, usize), Diag>)
        ensures
            item_res_matches(tv(toks@), i as int, k as int, r),
    {
        if i >= toks.len() {
            Err(mk_diag(DiagKind::ExpectedField, toks.len()))
        } else if is_open(&toks[i], Delim::Brace) {
            match SpreadList::parse(toks, i, k) {
                Err(e) => Err(e),
                Ok((l, j)) => Ok((SpreadItem::SpreadList(l), j)),
            }
        } else if is_joint_punct(&toks[i], '.') && i + 1 < toks.len() && is_punct(
            &toks[i + 1],
            '.',
        ) {
            let e0 = i + 2;
            let vend = expr_end(toks, e0, 0);
            if vend == e0 {
                Err(mk_diag(DiagKind::ExpectedExpr, e0))
            } else {
                let src = copy_range(toks, e0, vend);
                Ok((SpreadItem::FinalSpread(i, src), vend))
            }
        } else {
            match Field::parse(toks, i) {
                Err(e) => Err(e),
                Ok((f, j)) => Ok((SpreadItem::Field(f), j)),
            }
        }
    }
}

/// The view of an optional position.
pub open spec fn opt_pos(o: Option<usize>) -> Option<int> {
    match o {
        Some(p) => Some(p as int),
        None => None,
    }
}

/// A comma-separated run of spread items filling `[i, end)` exactly, the
/// first item at position `k`.  Returns the items and the position of a
/// trailing comma if one is present.  An item whose expression swallows
/// the region's closing delimiter reports that delimiter unclosed.
pub open spec fn sp_items(s: Seq<TokV>, i: int, end: int, k: int) -> Result<(Seq<SpreadItemV>,
    Option<int>), Diag>
    decreases end - i,
        when 0 <= i
        via sp_items_dec
{
    if i >= end {
        Ok((Seq::empty(), None))
    } else {
        match sp_spread_item(s, i, k) {
            Err(e) => Err(e),
            Ok((it, j)) => if j == end {
                Ok((seq![it], None))
            } else if j > end {
                Err(diag(DiagKind::UnclosedGroup, end))
            } else if is_punct_v(s[j], ',') {
                if j + 1 == end {
                    Ok((seq![it], Some(j)))
                } else {
                    match sp_items(s, j + 1, end, k + 1) {
                        Err(e) => Err(e),
                        Ok((rest, tr)) => Ok((seq![it] + rest, tr)),
                    }
                }
            } else {
                Err(diag(DiagKind::ExpectedComma, j))
            },
        }
    }
}

#[via_fn]
proof fn sp_items_dec(s: Seq<TokV>, i: int, end: int, k: int) {
    if 0 <= i {
        lemma_sp_item_next(s, i, k);
    }
}

/// Whether the executable result `r` is exactly what [`sp_items`] says.
pub open spec fn items_res_matches(
    s: Seq<TokV>,
    i: int,
    end: int,
    k: int,
    r: Result<(Vec<SpreadItem>, Option<usize>), Diag>,
) -> bool {
    match r {
        Ok((its, tr)) => sp_items(s, i, end, k) == Ok::<(Seq<SpreadItemV>, Option<int>), Diag>(
            (views(its@), opt_pos(tr)),
        ),
        Err(e) => sp_items(s, i, end, k) == Err::<(Seq<SpreadItemV>, Option<int>), Diag>(e),
    }
}

/// Parses the comma-separated spread items filling `[i, end)`, the first
/// item at position `k`.
pub fn parse_items(toks: &Vec<Tok>, i: usize, end: usize, k: usize) -> (r: Result<(Vec<
    SpreadItem>, Option<usize>), Diag>)
    requires
        end <= toks.len(),
        k + end - i <= usize::MAX,
    ensures
        items_res_matches(tv(toks@), i as int, end as int, k as int, r),
    decreases end - i,
{
    if i >= end {
        proof {
            assert(views(Seq::<SpreadItem>::empty()) =~= Seq::<SpreadItemV>::empty());
        }
        Ok((Vec::new(), None))
    } else {
        match SpreadItem::parse(toks, i, k) {
            Err(e) => Err(e),
            Ok((it, j)) => {
                proof {
                    lemma_sp_item_next(tv(toks@), i as int, k as int);
                }
                if j == end {
                    let ghost ig = it;
                    let mut out: Vec<SpreadItem> = Vec::new();
                    out.push(it);
                    proof {
                        assert(views(out@) =~= seq![ig@]);
                    }
                    Ok((out, None))
                } else if j > end {
                    Err(mk_diag(DiagKind::UnclosedGroup, end))
                } else if is_punct(&toks[j], ',') {
                    if j + 1 == end {
                        let ghost ig = it;
                        let mut out: Vec<SpreadItem> = Vec::new();
                        out.push(it);
                        proof {
                            assert(views(out@) =~= seq![ig@]);
                        }
                        Ok((out, Some(j)))
                    } else {
                        match parse_items(toks, j + 1, end, k + 1) {
                            Err(e) => Err(e),
                            Ok((mut rest, tr)) => {
                                let ghost restg = rest@;
                                let ghost ig = it;
                                let mut out: Vec<SpreadItem> = Vec::new();
                                out.push(it);
                                out.append(&mut rest);
                                proof {
                                    assert(views(out@) =~= seq![ig@] + views(restg));
                                }
                                Ok((out, tr))
                            },
                        }
                    }
                } else {
                    Err(mk_diag(DiagKind::ExpectedComma, j))
                }
            },
        }
    }
}

/// The tokens of a method call `.name()`.
pub open spec fn sp_dot_call(name: Seq<char>) -> Seq<TokV> {
    seq![
        TokV::Punct('.', false),
        TokV::Ident(name),
        TokV::Open(Delim::Paren),
        TokV::Close(Delim::Paren),
    ]
}

/// The tokens of a reference prefix `&`.
pub open spec fn sp_amp() -> Seq<TokV> {
    seq![TokV::Punct('&', false)]
}

/// The tokens of a mutable-reference prefix `&mut`.
pub open spec fn sp_amp_mut() -> Seq<TokV> {
    seq![TokV::Punct('&', false), TokV::Ident("mut"@)]
}

/// What a modifier does to its source expression.  Plain passes it
/// through; `&`/`&mut` prefix a reference; convert appends `.into()`;
/// duplicate appends `.clone()`; duplicate-then-convert appends `.clone()`
/// and then `.into()`; a custom path wraps the expression (or a reference
/// to it) in a call to the path.
pub open spec fn sp_apply_modifier(m: ModifierV, src: Seq<TokV>) -> Seq<TokV> {
    match m {
        ModifierV::Plain => src,
        ModifierV::Ref => sp_amp() + src,
        ModifierV::RefMut => sp_amp_mut() + src,
        ModifierV::Convert => src + sp_dot_call("into"@),
        ModifierV::Duplicate => src + sp_dot_call("clone"@),
        ModifierV::DupConvert => src + sp_dot_call("clone"@) + sp_dot_call("into"@),
        ModifierV::Custom(p) => p + seq![TokV::Open(Delim::Paren)] + src + seq![
            TokV::Close(Delim::Paren),
        ],
        ModifierV::CustomRef(p) => p + seq![TokV::Open(Delim::Paren)] + sp_amp() + src + seq![
            TokV::Close(Delim::Paren),
        ],
        ModifierV::CustomRefMut(p) => p + seq![TokV::Open(Delim::Paren)] + sp_amp_mut() + src
            + seq![TokV::Close(Delim::Paren)],
    }
}

/// Law: applying duplicate-then-convert is the same as applying duplicate
/// first and convert second — the value is cloned before it is converted,
/// never the other way round.
pub proof fn lemma_dup_convert_order(src: Seq<TokV>)
    ensures
        sp_apply_modifier(ModifierV::DupConvert, src) == sp_apply_modifier(
            ModifierV::Convert,
            sp_apply_modifier(ModifierV::Duplicate, src),
        ),
{
    assert(sp_apply_modifier(ModifierV::DupConvert, src) =~= sp_apply_modifier(
        ModifierV::Convert,
        sp_apply_modifier(ModifierV::Duplicate, src),
    ));
}

/// Appends the tokens of `.name()`.
fn push_dot_call(out: &mut Vec<Tok>, name: &str)
    ensures
        tv(final(out)@) == tv(old(out)@) + sp_dot_call(name@),
{
    push_tok(out, t_punct('.'));
    push_tok(out, t_ident(name));
    push_tok(out, Tok::Open(Delim::Paren));
    push_tok(out, Tok::Close(Delim::Paren));
    proof {
        assert(tv(out@) =~= tv(old(out)@) + sp_dot_call(name@));
    }
}

impl Field {
    /// Renders the field's modifier applied to `source`.
    pub fn value_with_modifiers(&self, source: Vec<Tok>) -> (r: Vec<Tok>)
        ensures
            tv(r@) == sp_apply_modifier(self@.modifier, tv(source@)),
    {
        let ghost srcv = tv(source@);
        match &self.modifier {
            SpreadModifier::Plain => source,
            SpreadModifier::Ref => {
                let mut out: Vec<Tok> = Vec::new();
                push_tok(&mut out, t_punct('&'));
                append_owned(&mut out, source);
                proof {
                    assert(tv(out@) =~= sp_amp() + srcv);
                }
                out
            },
            SpreadModifier::RefMut => {
                let mut out: Vec<Tok> = Vec::new();
                push_tok(&mut out, t_punct('&'));
                push_tok(&mut out, t_ident("mut"));
                append_owned(&mut out, source);
                proof {
                    assert(tv(out@) =~= sp_amp_mut() + srcv);
                }
                out
            },
            SpreadModifier::Convert => {
                let mut out = source;
                push_dot_call(&mut out, "into");
                out
            },
            SpreadModifier::Duplicate => {
                let mut out = source;
                push_dot_call(&mut out, "clone");
                out
            },
            SpreadModifier::DupConvert => {
                let mut out = source;
                push_dot_call(&mut out, "clone");
                push_dot_call(&mut out, "into");
                out
            },
            SpreadModifier::Custom(p) => {
                let mut out = toks_clone(p);
                push_tok(&mut out, Tok::Open(Delim::Paren));
                append_owned(&mut out, source);
                push_tok(&mut out, Tok::Close(Delim::Paren));
                proof {
                    assert(tv(out@) =~= tv(p@) + seq![TokV::Open(Delim::Paren)] + srcv + seq![
                        TokV::Close(Delim::Paren),
                    ]);
                }
                out
            },
            SpreadModifier::CustomRef(p) => {
                let mut out = toks_clone(p);
                push_tok(&mut out, Tok::Open(Delim::Paren));
                push_tok(&mut out, t_punct('&'));
                append_owned(&mut out, source);
                push_tok(&mut out, Tok::Close(Delim::Paren));
                proof {
                    assert(tv(out@) =~= tv(p@) + seq![TokV::Open(Delim::Paren)] + sp_amp() + srcv
                        + seq![TokV::Close(Delim::Paren)]);
                }
                out
            },
            SpreadModifier::CustomRefMut(p) => {
                let mut out = toks_clone(p);
                push_tok(&mut out, Tok::Open(Delim::Paren));
                push_tok(&mut out, t_punct('&'));
                push_tok(&mut out, t_ident("mut"));
                append_owned(&mut out, source);
                push_tok(&mut out, Tok::Close(Delim::Paren));
                proof {
                    assert(tv(out@) =~= tv(p@) + seq![TokV::Open(Delim::Paren)] + sp_amp_mut()
                        + srcv + seq![TokV::Close(Delim::Paren)]);
                }
                out
            },
        }
    }
}

/// The source expression a field draws from when no spread-list is
/// involved: its explicit value, or a variable named like the field.
pub open spec fn sp_field_source(f: FieldV) -> Seq<TokV> {
    match f.value {
        Some(v) => v,
        None => seq![TokV::Ident(f.name)],
    }
}

/// Executable counterpart of [`sp_field_source`].
pub fn field_source(f: &Field) -> (r: Vec<Tok>)
    ensures
        tv(r@) == sp_field_source(f@),
{
    match &f.value {
        Some(v) => toks_clone(v),
        None => {
            let mut out: Vec<Tok> = Vec::new();
            push_tok(&mut out, Tok::Ident(f.name.clone()));
            proof {
                assert(tv(out@) =~= seq![TokV::Ident(f.name@)]);
            }
            out
        },
    }
}

/// One struct-literal entry `name: <modifier-applied source>`.
pub open spec fn sp_field_assign(f: FieldV, src: Seq<TokV>) -> Seq<TokV> {
    seq![TokV::Ident(f.name), TokV::Punct(':', false)] + sp_apply_modifier(f.modifier, src)
}

impl Field {
    /// Renders `name: <modifier-applied source>`.
    fn field_expansion(&self, source: Vec<Tok>) -> (r: Vec<Tok>)
        ensures
            tv(r@) == sp_field_assign(self@, tv(source@)),
    {
        let ghost srcv = tv(source@);
        let mut out: Vec<Tok> = Vec::new();
        push_tok(&mut out, Tok::Ident(self.name.clone()));
        push_tok(&mut out, t_punct(':'));
        let value = self.value_with_modifiers(source);
        append_owned(&mut out, value);
        proof {
            assert(tv(out@) =~= sp_field_assign(self@, srcv));
        }
        out
    }
}

/// The member access `binder . name` a spread-list field draws from.
pub open spec fn sp_list_member_source(l: SpreadListV, f: FieldV) -> Seq<TokV> {
    seq![TokV::Ident(l.binder), TokV::Punct('.', false), TokV::Ident(f.name)]
}

/// The first `n` struct-literal entries of a spread-list, comma-separated
/// with no trailing comma.
pub open spec fn sp_list_fields_prefix(l: SpreadListV, n: int) -> Seq<TokV>
    decreases n,
{
    if n <= 0 {
        Seq::empty()
    } else if n == 1 {
        sp_field_assign(l.fields[0], sp_list_member_source(l, l.fields[0]))
    } else {
        sp_list_fields_prefix(l, n - 1) + seq![TokV::Punct(',', false)] + sp_field_assign(
            l.fields[n - 1],
            sp_list_member_source(l, l.fields[n - 1]),
        )
    }
}

/// The struct-literal entries of a spread-list: each field assigned from
/// `binder . name` with its modifier applied.
pub open spec fn sp_list_field_expansion(l: SpreadListV) -> Seq<TokV> {
    sp_list_fields_prefix(l, l.fields.len() as int)
}

impl SpreadList {
    /// Renders the list's struct-literal entries, drawing every field from
    /// the intermediate binder.
    fn field_expansion(&self) -> (r: Vec<Tok>)
        ensures
            tv(r@) == sp_list_field_expansion(self@),
    {
        let mut out: Vec<Tok> = Vec::new();
        let mut i: usize = 0;
        proof {
            assert(tv(out@) =~= sp_list_fields_prefix(self@, 0));
        }
        while i < self.fields.len()
            invariant
                i <= self.fields.len(),
                tv(out@) == sp_list_fields_prefix(self@, i as int),
            decreases self.fields.len() - i,
        {
            if i > 0 {
                push_tok(&mut out, t_punct(','));
            }
            let f = &self.fields[i];
            let mut src: Vec<Tok> = Vec::new();
            push_tok(&mut src, Tok::Ident(self.binder.clone()));
            push_tok(&mut src, t_punct('.'));
            push_tok(&mut src, Tok::Ident(f.name.clone()));
            proof {
                assert(f@ == self@.fields[i as int]);
                assert(tv(src@) =~= sp_list_member_source(self@, self@.fields[i as int]));
            }
            let rendered = f.field_expansion(src);
            append_owned(&mut out, rendered);
            proof {
                assert(tv(out@) =~= sp_list_fields_prefix(self@, i as int + 1));
            }
            i = i + 1;
        }
        out
    }
}

/// The tokens of one spread item inside a struct literal.
pub open spec fn sp_item_field_expansion(it: SpreadItemV) -> Seq<TokV> {
    match it {
        SpreadItemV::Field(f) => sp_field_assign(f, sp_field_source(f)),
        SpreadItemV::SpreadList(l) => sp_list_field_expansion(l),
        SpreadItemV::FinalSpread(_, src) => seq![TokV::Punct('.', true), TokV::Punct('.', false)]
            + src,
    }
}

impl SpreadItem {
    /// Renders this item's contribution to a struct literal: a field
    /// assignment, a spread-list's assignments, or the `..rest` trailer.
    pub fn field_expansion(&self) -> (r: Vec<Tok>)
        ensures
            tv(r@) == sp_item_field_expansion(self@),
    {
        match self {
            SpreadItem::Field(f) => {
                let src = field_source(f);
                f.field_expansion(src)
            },
            SpreadItem::SpreadList(l) => l.field_expansion(),
            SpreadItem::FinalSpread(_, src) => {
                let mut out: Vec<Tok> = Vec::new();
                push_tok(&mut out, t_joint('.'));
                push_tok(&mut out, t_punct('.'));
                append_copy(&mut out, src);
                proof {
                    assert(tv(out@) =~= seq![TokV::Punct('.', true), TokV::Punct('.', false)]
                        + tv(src@));
                }
                out
            },
        }
    }
}

/// The `mut` keyword when a binding is mutable, nothing otherwise.
pub open spec fn sp_mut_prefix(is_mut: bool) -> Seq<TokV> {
    if is_mut {
        seq![TokV::Ident("mut"@)]
    } else {
        Seq::empty()
    }
}

/// The binding statement of a single field:
/// `let [mut] name = <modifier-applied source> ;`.
pub open spec fn sp_field_let(f: FieldV) -> Seq<TokV> {
    seq![TokV::Ident("let"@)] + sp_mut_prefix(f.is_mut) + seq![
        TokV::Ident(f.name),
        TokV::Punct('=', false),
    ] + sp_apply_modifier(f.modifier, sp_field_source(f)) + seq![TokV::Punct(';', false)]
}

/// The first `n` entries `[mut] name ,` of a spread-list's tuple pattern.
pub open spec fn sp_list_binders_prefix(l: SpreadListV, n: int) -> Seq<TokV>
    decreases n,
{
    if n <= 0 {
        Seq::empty()
    } else {
        sp_list_binders_prefix(l, n - 1) + sp_mut_prefix(l.fields[n - 1].is_mut) + seq![
            TokV::Ident(l.fields[n - 1].name),
            TokV::Punct(',', false),
        ]
    }
}

/// The member access `__source . name` inside a spread-list binding.
pub open spec fn sp_inner_member_source(f: FieldV) -> Seq<TokV> {
    seq![TokV::Ident("__source"@), TokV::Punct('.', false), TokV::Ident(f.name)]
}

/// The first `n` entries `<modifier-applied __source.name> ,` of a
/// spread-list's tuple value.
pub open spec fn sp_list_values_prefix(l: SpreadListV, n: int) -> Seq<TokV>
    decreases n,
{
    if n <= 0 {
        Seq::empty()
    } else {
        sp_list_values_prefix(l, n - 1) + sp_apply_modifier(
            l.fields[n - 1].modifier,
            sp_inner_member_source(l.fields[n - 1]),
        ) + seq![TokV::Punct(',', false)]
    }
}

/// Everything of a spread-list binding before the tuple of values:
/// `let ( pattern ) = { let __source = source ; (`.
pub open spec fn sp_list_let_head(l: SpreadListV) -> Seq<TokV> {
    seq![TokV::Ident("let"@), TokV::Open(Delim::Paren)] + sp_list_binders_prefix(
        l,
        l.fields.len() as int,
    ) + seq![
        TokV::Close(Delim::Paren),
        TokV::Punct('=', false),
        TokV::Open(Delim::Brace),
        TokV::Ident("let"@),
        TokV::Ident("__source"@),
        TokV::Punct('=', false),
    ] + l.source + seq![TokV::Punct(';', false), TokV::Open(Delim::Paren)]
}

/// The binding statement of a spread-list: one combined tuple binding that
/// evaluates the source exactly once and destructures every listed field
/// from it:
/// `let ( [mut] f1 , ... ) = { let __source = source ; ( v1 , ... ) } ;`.
pub open spec fn sp_list_let_expansion(l: SpreadListV) -> Seq<TokV> {
    sp_list_let_head(l) + sp_list_values_prefix(l, l.fields.len() as int) + seq![
        TokV::Close(Delim::Paren),
        TokV::Close(Delim::Brace),
        TokV::Punct(';', false),
    ]
}

impl SpreadList {
    /// Renders the list's combined binding statement.
    fn let_expansion(&self) -> (r: Vec<Tok>)
        ensures
            tv(r@) == sp_list_let_expansion(self@),
    {
        let mut out: Vec<Tok> = Vec::new();
        push_tok(&mut out, t_ident("let"));
        push_tok(&mut out, Tok::Open(Delim::Paren));
        let mut i: usize = 0;
        proof {
            assert(tv(out@) =~= seq![TokV::Ident("let"@), TokV::Open(Delim::Paren)]
                + sp_list_binders_prefix(self@, 0));
        }
        while i < self.fields.len()
            invariant
                i <= self.fields.len(),
                tv(out@) == seq![TokV::Ident("let"@), TokV::Open(Delim::Paren)]
                    + sp_list_binders_prefix(self@, i as int),
            decreases self.fields.len() - i,
        {
            let f = &self.fields[i];
            if f.is_mut {
                push_tok(&mut out, t_ident("mut"));
            }
            push_tok(&mut out, Tok::Ident(f.name.clone()));
            push_tok(&mut out, t_punct(','));
            proof {
                assert(f@ == self@.fields[i as int]);
                assert(tv(out@) =~= seq![TokV::Ident("let"@), TokV::Open(Delim::Paren)]
                    + sp_list_binders_prefix(self@, i as int + 1));
            }
            i = i + 1;
        }
        push_tok(&mut out, Tok::Close(Delim::Paren));
        push_tok(&mut out, t_punct('='));
        push_tok(&mut out, Tok::Open(Delim::Brace));
        push_tok(&mut out, t_ident("let"));
        push_tok(&mut out, t_ident("__source"));
        push_tok(&mut out, t_punct('='));
        append_copy(&mut out, &self.source);
        push_tok(&mut out, t_punct(';'));
        push_tok(&mut out, Tok::Open(Delim::Paren));
        proof {
            assert(tv(out@) =~= sp_list_let_head(self@) + sp_list_values_prefix(self@, 0));
        }
        let mut j: usize = 0;
        while j < self.fields.len()
            invariant
                j <= self.fields.len(),
                tv(out@) == sp_list_let_head(self@) + sp_list_values_prefix(self@, j as int),
            decreases self.fields.len() - j,
        {
            let f = &self.fields[j];
            let mut src: Vec<Tok> = Vec::new();
            push_tok(&mut src, t_ident("__source"));
            push_tok(&mut src, t_punct('.'));
            push_tok(&mut src, Tok::Ident(f.name.clone()));
            proof {
                assert(f@ == self@.fields[j as int]);
                assert(tv(src@) =~= sp_inner_member_source(self@.fields[j as int]));
            }
            let value = f.value_with_modifiers(src);
            append_owned(&mut out, value);
            push_tok(&mut out, t_punct(','));
            proof {
                assert(tv(out@) =~= sp_list_let_head(self@) + sp_list_values_prefix(
                    self@,
                    j as int + 1,
                ));
            }
            j = j + 1;
        }
        push_tok(&mut out, Tok::Close(Delim::Paren));
        push_tok(&mut out, Tok::Close(Delim::Brace));
        push_tok(&mut out, t_punct(';'));
        proof {
            assert(tv(out@) =~= sp_list_let_expansion(self@));
        }
        out
    }
}

/// The tokens of one spread item inside a binding list.  A final-spread
/// item has no binding meaning and renders as nothing here; the binding
/// generator rejects it before rendering.
pub open spec fn sp_item_let_expansion(it: SpreadItemV) -> Seq<TokV> {
    match it {
        SpreadItemV::Field(f) => sp_field_let(f),
        SpreadItemV::SpreadList(l) => sp_list_let_expansion(l),
        SpreadItemV::FinalSpread(_, _) => Seq::empty(),
    }
}

impl SpreadItem {
    /// Renders this item's contribution to a binding list.
    pub fn let_expansion(&self) -> (r: Vec<Tok>)
        ensures
            tv(r@) == sp_item_let_expansion(self@),
    {
        match self {
            SpreadItem::Field(f) => {
                let mut out: Vec<Tok> = Vec::new();
                push_tok(&mut out, t_ident("let"));
                if f.is_mut {
                    push_tok(&mut out, t_ident("mut"));
                }
                push_tok(&mut out, Tok::Ident(f.name.clone()));
                push_tok(&mut out, t_punct('='));
                let src = field_source(f);
                let value = f.value_with_modifiers(src);
                append_owned(&mut out, value);
                push_tok(&mut out, t_punct(';'));
                proof {
                    assert(tv(out@) =~= sp_field_let(f@));
                }
                out
            },
            SpreadItem::SpreadList(l) => l.let_expansion(),
            SpreadItem::FinalSpread(_, _) => {
                let out: Vec<Tok> = Vec::new();
                proof {
                    assert(tv(out@) =~= Seq::<TokV>::empty());
                }
                out
            },
        }
    }
}

/// The diagnostic for the first `mut`-marked field of a spread-list, front
/// to back.
pub open spec fn sp_fields_mut_diag(fs: Seq<FieldV>) -> Option<Diag>
    decreases fs.len(),
{
    if fs.len() == 0 {
        None
    } else if fs[0].is_mut {
        Some(diag(DiagKind::MutNotAllowed, fs[0].pos))
    } else {
        sp_fields_mut_diag(fs.drop_first())
    }
}

/// The diagnostic for a `mut` marker inside one item.
pub open spec fn sp_item_mut_diag(it: SpreadItemV) -> Option<Diag> {
    match it {
        SpreadItemV::Field(f) => if f.is_mut {
            Some(diag(DiagKind::MutNotAllowed, f.pos))
        } else {
            None
        },
        SpreadItemV::SpreadList(l) => sp_fields_mut_diag(l.fields),
        SpreadItemV::FinalSpread(_, _) => None,
    }
}

/// The diagnostic for the first `mut` marker in an item list, front to
/// back.  Forms that have no notion of a mutable binding reject it.
pub open spec fn sp_items_mut_diag(items: Seq<SpreadItemV>) -> Option<Diag>
    decreases items.len(),
{
    if items.len() == 0 {
        None
    } else {
        match sp_item_mut_diag(items[0]) {
            Some(d) => Some(d),
            None => sp_items_mut_diag(items.drop_first()),
        }
    }
}

fn check_fields_mut(fields: &Vec<Field>) -> (r: Option<Diag>)
    ensures
        r == sp_fields_mut_diag(views(fields@)),
{
    proof {
        assert(views(fields@).skip(0) =~= views(fields@));
    }
    check_fields_mut_from(fields, 0)
}

fn check_fields_mut_from(fields: &Vec<Field>, i: usize) -> (r: Option<Diag>)
    requires
        i <= fields.len(),
    ensures
        r == sp_fields_mut_diag(views(fields@).skip(i as int)),
    decreases fields.len() - i,
{
    if i >= fields.len() {
        proof {
            assert(views(fields@).skip(i as int) =~= Seq::<FieldV>::empty());
        }
        None
    } else {
        proof {
            assert(views(fields@).skip(i as int)[0] == fields@[i as int]@);
            assert(views(fields@).skip(i as int).drop_first() =~= views(fields@).skip(
                i as int + 1,
            ));
        }
        if fields[i].is_mut {
            Some(mk_diag(DiagKind::MutNotAllowed, fields[i].pos))
        } else {
            check_fields_mut_from(fields, i + 1)
        }
    }
}

fn check_item_mut(it: &SpreadItem) -> (r: Option<Diag>)
    ensures
        r == sp_item_mut_diag(it@),
{
    match it {
        SpreadItem::Field(f) => if f.is_mut {
            Some(mk_diag(DiagKind::MutNotAllowed, f.pos))
        } else {
            None
        },
        SpreadItem::SpreadList(l) => check_fields_mut(&l.fields),
        SpreadItem::FinalSpread(_, _) => None,
    }
}

/// Reports the first `mut` binding marker among the items, if any.
pub fn check_items_mut(items: &Vec<SpreadItem>) -> (r: Option<Diag>)
    ensures
        r == sp_items_mut_diag(views(items@)),
{
    proof {
        assert(views(items@).skip(0) =~= views(items@));
    }
    check_items_mut_from(items, 0)
}

fn check_items_mut_from(items: &Vec<SpreadItem>, i: usize) -> (r: Option<Diag>)
    requires
        i <= items.len(),
    ensures
        r == sp_items_mut_diag(views(items@).skip(i as int)),
    decreases items.len() - i,
{
    if i >= items.len() {
        proof {
            assert(views(items@).skip(i as int) =~= Seq::<SpreadItemV>::empty());
        }
        None
    } else {
        proof {
            assert(views(items@).skip(i as int)[0] == items@[i as int]@);
            assert(views(items@).skip(i as int).drop_first() =~= views(items@).skip(i as int + 1));
        }
        match check_item_mut(&items[i]) {
            Some(d) => Some(d),
            None => check_items_mut_from(items, i + 1),
        }
    }
}

/// The diagnostic for the first final-spread item anywhere in the list,
/// for the forms that do not accept one at all.
pub open spec fn sp_items_final_diag(items: Seq<SpreadItemV>) -> Option<Diag>
    decreases items.len(),
{
    if items.len() == 0 {
        None
    } else {
        match items[0] {
            SpreadItemV::FinalSpread(p, _) => Some(diag(DiagKind::FinalSpreadNotAllowed, p)),
            _ => sp_items_final_diag(items.drop_first()),
        }
    }
}

/// Reports the first final-spread item, if any.
pub fn check_items_final(items: &Vec<SpreadItem>) -> (r: Option<Diag>)
    ensures
        r == sp_items_final_diag(views(items@)),
{
    proof {
        assert(views(items@).skip(0) =~= views(items@));
    }
    check_items_final_from(items, 0)
}

fn check_items_final_from(items: &Vec<SpreadItem>, i: usize) -> (r: Option<Diag>)
    requires
        i <= items.len(),
    ensures
        r == sp_items_final_diag(views(items@).skip(i as int)),
    decreases items.len() - i,
{
    if i >= items.len() {
        proof {
            assert(views(items@).skip(i as int) =~= Seq::<SpreadItemV>::empty());
        }
        None
    } else {
        proof {
            assert(views(items@).skip(i as int)[0] == items@[i as int]@);
            assert(views(items@).skip(i as int).drop_first() =~= views(items@).skip(i as int + 1));
        }
        match &items[i] {
            SpreadItem::FinalSpread(p, _) => Some(mk_diag(DiagKind::FinalSpreadNotAllowed, *p)),
            _ => check_items_final_from(items, i + 1),
        }
    }
}

/// The diagnostic for the first final-spread item standing before another
/// item: a final-spread may only be the last item.
pub open spec fn sp_final_not_last_diag(items: Seq<SpreadItemV>) -> Option<Diag>
    decreases items.len(),
{
    if items.len() <= 1 {
        None
    } else {
        match items[0] {
            SpreadItemV::FinalSpread(p, _) => Some(diag(DiagKind::FinalSpreadNotLast, p)),
            _ => sp_final_not_last_diag(items.drop_first()),
        }
    }
}

/// Reports the first final-spread item that is not last, if any.
pub fn check_final_not_last(items: &Vec<SpreadItem>) -> (r: Option<Diag>)
    ensures
        r == sp_final_not_last_diag(views(items@)),
{
    proof {
        assert(views(items@).skip(0) =~= views(items@));
    }
    check_final_not_last_from(items, 0)
}

fn check_final_not_last_from(items: &Vec<SpreadItem>, i: usize) -> (r: Option<Diag>)
    requires
        i <= items.len(),
    ensures
        r == sp_final_not_last_diag(views(items@).skip(i as int)),
    decreases items.len() - i,
{
    if items.len() - i <= 1 {
        proof {
            assert(views(items@).skip(i as int).len() <= 1);
        }
        None
    } else {
        proof {
            assert(views(items@).skip(i as int)[0] == items@[i as int]@);
            assert(views(items@).skip(i as int).drop_first() =~= views(items@).skip(i as int + 1));
        }
        match &items[i] {
            SpreadItem::FinalSpread(p, _) => Some(mk_diag(DiagKind::FinalSpreadNotLast, *p)),
            _ => check_final_not_last_from(items, i + 1),
        }
    }
}

/// The diagnostic for a trailing comma after a last final-spread item.
pub open spec fn sp_trailing_final_diag(items: Seq<SpreadItemV>, trailing: Option<int>) -> Option<
    Diag,
> {
    if items.len() > 0 && items.last() is FinalSpread && trailing is Some {
        Some(diag(DiagKind::TrailingCommaAfterFinalSpread, trailing->0))
    } else {
        None
    }
}

/// Reports the trailing comma after a final final-spread item, if any.
pub fn check_trailing_final(items: &Vec<SpreadItem>, trailing: Option<usize>) -> (r: Option<Diag>)
    ensures
        r == sp_trailing_final_diag(views(items@), opt_pos(trailing)),
{
    if items.len() > 0 {
        let is_final = match &items[items.len() - 1] {
            SpreadItem::FinalSpread(_, _) => true,
            _ => false,
        };
        proof {
            assert(views(items@).last() == items@[items@.len() - 1]@);
        }
        match trailing {
            Some(p) => if is_final {
                Some(mk_diag(DiagKind::TrailingCommaAfterFinalSpread, p))
            } else {
                None
            },
            None => None,
        }
    } else {
        None
    }
}

} // verus!
