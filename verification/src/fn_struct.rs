//! The function-argument-struct generator.
//!
//! One declaration has the shape
//! `[attrs] [vis] [&] Name [<gens>] [where ...] for [<gens>] [where ...]
//! fn path ( [self-field ,] (field: Type [= default]),* ) [-> ReturnType]`,
//! and several declarations may follow each other separated by `;`.
//!
//! The expansion declares a struct holding every non-receiver field, an
//! implementation of the default trait when every field carries a default
//! value, and a `call` method that invokes the callable with the receiver
//! first (if one was declared) and then each stored field after modifier
//! application.

use vstd::prelude::*;

use crate::common::{colon_starts_value, colon_starts_value_at, ident_of, ident_text,
    sp_apply_modifier, sp_modifier, lemma_sp_modifier_next, sp_amp, sp_amp_mut, Field, FieldV,
    ModifierV, SpreadModifier};
use crate::diag::{diag, mk_diag, Diag, DiagKind};
use crate::scan::{angle_close, as_pos, closes_angle, expr_end, is_angle_close, kw_end, last_sep,
    lemma_angle_close_bounds, lemma_expr_end_bounds, lemma_kw_end_bounds, lemma_path_end_bounds,
    lemma_scan_close_bounds, lemma_type_end_bounds, path_end, scan_close, sp_angle_close,
    sp_as_pos, sp_expr_end, sp_kw_end, sp_last_sep, sp_path_end, sp_scan_close, sp_type_end,
    type_end};
use crate::token::{append_copy, append_owned, copy_range, ident_is, is_ident, is_joint_punct, is_open, is_punct,
    is_punct_v, push_tok, t_ident, t_joint, t_punct, tok_clone, toks_clone, tv, tvs, views,
    Delim, Tok, TokV};

verus! {

/// One declared argument: a modifier, a name, a type, and an optional
/// default value.  A receiver field is written `self` and carries no type
/// and no default.  `pos` is the index of the field's first token.
#[derive(Debug, PartialEq, Eq)]
pub struct TypedField {
    pub pos: usize,
    pub modifier: SpreadModifier,
    pub name: String,
    pub ty: Option<Vec<Tok>>,
    pub value: Option<Vec<Tok>>,
}

/// The mathematical value of a typed field.
pub struct TypedFieldV {
    pub pos: int,
    pub modifier: ModifierV,
    pub name: Seq<char>,
    pub ty: Option<Seq<TokV>>,
    pub value: Option<Seq<TokV>>,
}

impl View for TypedField {
    type V = TypedFieldV;

    open spec fn view(&self) -> TypedFieldV {
        TypedFieldV {
            pos: self.pos as int,
            modifier: self.modifier@,
            name: self.name@,
            ty: match self.ty {
                Some(t) => Some(tv(t@)),
                None => None,
            },
            value: match self.value {
                Some(v) => Some(tv(v@)),
                None => None,
            },
        }
    }
}

impl TypedField {
    /// The same field as a plain grammar field, for rendering through the
    /// shared modifier machinery.
    pub fn to_field(&self) -> (r: Field)
        ensures
            r@ == (FieldV {
                pos: self@.pos,
                is_mut: false,
                modifier: self@.modifier,
                name: self@.name,
                value: self@.value,
            }),
    {
        Field {
            pos: self.pos,
            is_mut: false,
            modifier: clone_modifier(&self.modifier),
            name: self.name.clone(),
            value: match &self.value {
                Some(v) => Some(toks_clone(v)),
                None => None,
            },
        }
    }
}

/// A copy of a modifier with the same view.
pub fn clone_modifier(m: &SpreadModifier) -> (r: SpreadModifier)
    ensures
        r@ == m@,
{
    match m {
        SpreadModifier::Plain => SpreadModifier::Plain,
        SpreadModifier::Ref => SpreadModifier::Ref,
        SpreadModifier::RefMut => SpreadModifier::RefMut,
        SpreadModifier::Convert => SpreadModifier::Convert,
        SpreadModifier::Duplicate => SpreadModifier::Duplicate,
        SpreadModifier::DupConvert => SpreadModifier::DupConvert,
        SpreadModifier::Custom(p) => SpreadModifier::Custom(toks_clone(p)),
        SpreadModifier::CustomRef(p) => SpreadModifier::CustomRef(toks_clone(p)),
        SpreadModifier::CustomRefMut(p) => SpreadModifier::CustomRefMut(toks_clone(p)),
    }
}

/// Whether a modifier is acceptable on a receiver field: only the plain,
/// `&` and `&mut` forms — the receiver is passed on, never produced.
pub open spec fn receiver_modifier_ok(m: ModifierV) -> bool {
    m is Plain || m is Ref || m is RefMut
}

/// One typed field: `[modifier] name : Type [= default]`, or a receiver
/// `[modifier] self` restricted to the reference modifiers.
pub open spec fn sp_typed_field(s: Seq<TokV>, i: int) -> Result<(TypedFieldV, int), Diag> {
    let pos = i;
    match sp_modifier(s, i) {
        Err(e) => Err(e),
        Ok((m, i2)) => if !(i2 < s.len() && s[i2] is Ident) {
            Err(diag(DiagKind::ExpectedName, i2))
        } else {
            let name = ident_of(s[i2]);
            let i3 = i2 + 1;
            if name == "self"@ {
                if receiver_modifier_ok(m) {
                    Ok((TypedFieldV { pos, modifier: m, name, ty: None, value: None }, i3))
                } else {
                    Err(diag(DiagKind::SelfModifierNotAllowed, i2))
                }
            } else if i3 < s.len() && colon_starts_value(s, i3) {
                let tend = sp_type_end(s, i3 + 1, 0, 0);
                if tend == i3 + 1 {
                    Err(diag(DiagKind::ExpectedType, i3 + 1))
                } else {
                    let ty = s.subrange(i3 + 1, tend);
                    if tend < s.len() && is_punct_v(s[tend], '=') {
                        let vend = sp_expr_end(s, tend + 1, 0);
                        if vend == tend + 1 {
                            Err(diag(DiagKind::ExpectedExpr, tend + 1))
                        } else {
                            Ok(
                                (
                                    TypedFieldV {
                                        pos,
                                        modifier: m,
                                        name,
                                        ty: Some(ty),
                                        value: Some(s.subrange(tend + 1, vend)),
                                    },
                                    vend,
                                ),
                            )
                        }
                    } else {
                        Ok((TypedFieldV { pos, modifier: m, name, ty: Some(ty), value: None },
                            tend))
                    }
                }
            } else {
                Err(diag(DiagKind::ExpectedColon, i3))
            }
        },
    }
}

pub proof fn lemma_sp_typed_field_next(s: Seq<TokV>, i: int)
    requires
        0 <= i,
    ensures
        sp_typed_field(s, i) matches Ok((f, j)) ==> i < j <= s.len(),
{
    lemma_sp_modifier_next(s, i);
    match sp_modifier(s, i) {
        Ok((m, i2)) => {
            if i2 < s.len() && s[i2] is Ident {
                let i3 = i2 + 1;
                if !(ident_of(s[i2]) == "self"@) && i3 < s.len() && colon_starts_value(s, i3) {
                    lemma_type_end_bounds(s, i3 + 1, 0, 0);
                    let tend = sp_type_end(s, i3 + 1, 0, 0);
                    if i3 + 1 < tend && tend < s.len() && is_punct_v(s[tend], '=') {
                        lemma_expr_end_bounds(s, tend + 1, 0);
                    }
                }
            }
        },
        Err(_) => {},
    }
}

/// Whether the executable result `r` is exactly what [`sp_typed_field`]
/// says.
pub open spec fn typed_field_res_matches(
    s: Seq<TokV>,
    i: int,
    r: Result<(TypedField, usize), Diag>,
) -> bool {
    match r {
        Ok((f, j)) => sp_typed_field(s, i) == Ok::<(TypedFieldV, int), Diag>((f@, j as int)),
        Err(e) => sp_typed_field(s, i) == Err::<(TypedFieldV, int), Diag>(e),
    }
}

impl TypedField {
    /// Parses one typed field at `i`.
    pub fn parse(toks: &Vec<Tok>, i: usize) -> (r: Result<(TypedField, usize), Diag>)
        ensures
            typed_field_res_matches(tv(toks@), i as int, r),
    {
        let pos = i;
        match SpreadModifier::parse(toks, i) {
            Err(e) => Err(e),
            Ok((m, i2)) => if !(i2 < toks.len() && is_ident(&toks[i2])) {
                Err(mk_diag(DiagKind::ExpectedName, i2))
            } else {
                let name = ident_text(&toks[i2]);
                let i3 = i2 + 1;
                if ident_is(&toks[i2], "self") {
                    let ok = match &m {
                        SpreadModifier::Plain => true,
                        SpreadModifier::Ref => true,
                        SpreadModifier::RefMut => true,
                        _ => false,
                    };
                    if ok {
                        Ok((TypedField { pos, modifier: m, name, ty: None, value: None }, i3))
                    } else {
                        Err(mk_diag(DiagKind::SelfModifierNotAllowed, i2))
                    }
                } else if i3 < toks.len() && colon_starts_value_at(toks, i3) {
                    let tend = type_end(toks, i3 + 1, 0, 0);
                    if tend == i3 + 1 {
                        Err(mk_diag(DiagKind::ExpectedType, i3 + 1))
                    } else {
                        let ty = copy_range(toks, i3 + 1, tend);
                        if tend < toks.len() && is_punct(&toks[tend], '=') {
                            let vend = expr_end(toks, tend + 1, 0);
                            if vend == tend + 1 {
                                Err(mk_diag(DiagKind::ExpectedExpr, tend + 1))
                            } else {
                                let value = copy_range(toks, tend + 1, vend);
                                Ok(
                                    (
                                        TypedField {
                                            pos,
                                            modifier: m,
                                            name,
                                            ty: Some(ty),
                                            value: Some(value),
                                        },
                                        vend,
                                    ),
                                )
                            }
                        } else {
                            Ok((TypedField { pos, modifier: m, name, ty: Some(ty), value: None },
                                tend))
                        }
                    }
                } else {
                    Err(mk_diag(DiagKind::ExpectedColon, i3))
                }
            },
        }
    }
}

/// A comma-separated run of typed fields filling `[i, end)` exactly, with
/// an optional trailing comma.  The empty run is accepted.  A field whose
/// expression swallows the region's closing delimiter reports that
/// delimiter unclosed.
pub open spec fn sp_typed_fields(s: Seq<TokV>, i: int, end: int) -> Result<Seq<TypedFieldV>,
    Diag>
    decreases end - i,
        when 0 <= i
        via sp_typed_fields_dec
{
    if i >= end {
        Ok(Seq::empty())
    } else {
        match sp_typed_field(s, i) {
            Err(e) => Err(e),
            Ok((f, j)) => if j == end {
                Ok(seq![f])
            } else if j > end {
                Err(diag(DiagKind::UnclosedGroup, end))
            } else if is_punct_v(s[j], ',') {
                match sp_typed_fields(s, j + 1, end) {
                    Err(e) => Err(e),
                    Ok(rest) => Ok(seq![f] + rest),
                }
            } else {
                Err(diag(DiagKind::ExpectedComma, j))
            },
        }
    }
}

#[via_fn]
proof fn sp_typed_fields_dec(s: Seq<TokV>, i: int, end: int) {
    if 0 <= i {
        lemma_sp_typed_field_next(s, i);
    }
}

/// Whether the executable result `r` is exactly what [`sp_typed_fields`]
/// says.
pub open spec fn typed_fields_res_matches(
    s: Seq<TokV>,
    i: int,
    end: int,
    r: Result<Vec<TypedField>, Diag>,
) -> bool {
    match r {
        Ok(fs) => sp_typed_fields(s, i, end) == Ok::<Seq<TypedFieldV>, Diag>(views(fs@)),
        Err(e) => sp_typed_fields(s, i, end) == Err::<Seq<TypedFieldV>, Diag>(e),
    }
}

/// Parses the comma-separated typed fields filling `[i, end)`.
pub fn parse_typed_fields(toks: &Vec<Tok>, i: usize, end: usize) -> (r: Result<Vec<TypedField>,
    Diag>)
    requires
        end <= toks.len(),
    ensures
        typed_fields_res_matches(tv(toks@), i as int, end as int, r),
    decreases end - i,
{
    if i >= end {
        proof {
            assert(views(Seq::<TypedField>::empty()) =~= Seq::<TypedFieldV>::empty());
        }
        Ok(Vec::new())
    } else {
        match TypedField::parse(toks, i) {
            Err(e) => Err(e),
            Ok((f, j)) => {
                proof {
                    lemma_sp_typed_field_next(tv(toks@), i as int);
                }
                if j == end {
                    let ghost fg = f;
                    let mut out: Vec<TypedField> = Vec::new();
                    out.push(f);
                    proof {
                        assert(views(out@) =~= seq![fg@]);
                    }
                    Ok(out)
                } else if j > end {
                    Err(mk_diag(DiagKind::UnclosedGroup, end))
                } else if is_punct(&toks[j], ',') {
                    match parse_typed_fields(toks, j + 1, end) {
                        Err(e) => Err(e),
                        Ok(mut rest) => {
                            let ghost restg = rest@;
                            let ghost fg = f;
                            let mut out: Vec<TypedField> = Vec::new();
                            out.push(f);
                            out.append(&mut rest);
                            proof {
                                assert(views(out@) =~= seq![fg@] + views(restg));
                            }
                            Ok(out)
                        },
                    }
                } else {
                    Err(mk_diag(DiagKind::ExpectedComma, j))
                }
            },
        }
    }
}

/// The leading `#[...]` attribute groups from `i` on, and the position
/// after them.
pub open spec fn sp_outer_attrs(s: Seq<TokV>, i: int) -> Result<(Seq<Seq<TokV>>, int), Diag>
    decreases s.len() - i,
        when 0 <= i
        via sp_outer_attrs_dec
{
    if !(i < s.len() && is_punct_v(s[i], '#') && i + 1 < s.len() && s[i + 1] == TokV::Open(
        Delim::Bracket,
    )) {
        Ok((Seq::empty(), i))
    } else {
        match sp_scan_close(s, i + 2, 0) {
            None => Err(diag(DiagKind::UnclosedGroup, i + 1)),
            Some(close) => match sp_outer_attrs(s, close + 1) {
                Err(e) => Err(e),
                Ok((rest, j)) => Ok((seq![s.subrange(i + 2, close)] + rest, j)),
            },
        }
    }
}

#[via_fn]
proof fn sp_outer_attrs_dec(s: Seq<TokV>, i: int) {
    if 0 <= i {
        lemma_scan_close_bounds(s, i + 2, 0);
    }
}

pub proof fn lemma_sp_outer_attrs_next(s: Seq<TokV>, i: int)
    requires
        0 <= i <= s.len(),
    ensures
        sp_outer_attrs(s, i) matches Ok((attrs, j)) ==> i <= j <= s.len(),
    decreases s.len() - i,
{
    if i < s.len() && is_punct_v(s[i], '#') && i + 1 < s.len() && s[i + 1] == TokV::Open(
        Delim::Bracket,
    ) {
        lemma_scan_close_bounds(s, i + 2, 0);
        match sp_scan_close(s, i + 2, 0) {
            Some(close) => {
                lemma_sp_outer_attrs_next(s, close + 1);
            },
            None => {},
        }
    }
}

/// Parses the leading `#[...]` attribute groups at `i`.
pub fn parse_outer_attrs(toks: &Vec<Tok>, i: usize) -> (r: Result<(Vec<Vec<Tok>>, usize), Diag>)
    requires
        i <= toks.len(),
    ensures
        match r {
            Ok((attrs, j)) => sp_outer_attrs(tv(toks@), i as int) == Ok::<(Seq<Seq<TokV>>, int),
                Diag>((tvs(attrs@), j as int)) && j <= toks.len(),
            Err(e) => sp_outer_attrs(tv(toks@), i as int) == Err::<(Seq<Seq<TokV>>, int), Diag>(
                e,
            ),
        },
    decreases toks.len() - i,
{
    proof {
        lemma_sp_outer_attrs_next(tv(toks@), i as int);
    }
    if !(i < toks.len() && is_punct(&toks[i], '#') && i + 1 < toks.len() && is_open(
        &toks[i + 1],
        Delim::Bracket,
    )) {
        proof {
            assert(tvs(Seq::<Vec<Tok>>::empty()) =~= Seq::<Seq<TokV>>::empty());
        }
        Ok((Vec::new(), i))
    } else {
        match scan_close(toks, i + 2, 0) {
            None => Err(mk_diag(DiagKind::UnclosedGroup, i + 1)),
            Some(close) => match parse_outer_attrs(toks, close + 1) {
                Err(e) => Err(e),
                Ok((mut rest, j)) => {
                    let attr = copy_range(toks, i + 2, close);
                    let ghost ag = attr@;
                    let ghost restg = rest@;
                    let mut out: Vec<Vec<Tok>> = Vec::new();
                    out.push(attr);
                    out.append(&mut rest);
                    proof {
                        assert(tvs(out@) =~= seq![tv(ag)] + tvs(restg));
                    }
                    Ok((out, j))
                },
            },
        }
    }
}

/// The receiver's type, read off the callable path: for a qualified path
/// `<Ty as Trait>::method` or `<Ty>::method` it is `Ty`; for an ordinary
/// path it is the path with its final `::segment` removed.  A path without
/// a separator denotes a free function and cannot take a receiver.
/// `at` is the position of the path, used for the diagnostic.
pub open spec fn sp_receiver_ty(path: Seq<TokV>, at: int) -> Result<Seq<TokV>, Diag> {
    if path.len() > 0 && is_punct_v(path[0], '<') {
        match sp_angle_close(path, 1, 0, 1) {
            None => Err(diag(DiagKind::UnclosedGroup, at)),
            Some(close) => match sp_as_pos(path, 1, close, 0, 0) {
                Some(a) => Ok(path.subrange(1, a)),
                None => Ok(path.subrange(1, close)),
            },
        }
    } else {
        match sp_last_sep(path, 0, 0, 0, None) {
            Some(sep) => if sep == 0 {
                Err(diag(DiagKind::SelfNotMethod, at))
            } else {
                Ok(path.subrange(0, sep))
            },
            None => Err(diag(DiagKind::SelfNotMethod, at)),
        }
    }
}

/// Executable counterpart of [`sp_receiver_ty`].
pub fn receiver_ty(path: &Vec<Tok>, at: usize) -> (r: Result<Vec<Tok>, Diag>)
    ensures
        match r {
            Ok(ty) => sp_receiver_ty(tv(path@), at as int) == Ok::<Seq<TokV>, Diag>(tv(ty@)),
            Err(e) => sp_receiver_ty(tv(path@), at as int) == Err::<Seq<TokV>, Diag>(e),
        },
{
    if path.len() > 0 && is_punct(&path[0], '<') {
        match angle_close(path, 1, 0, 1) {
            None => Err(mk_diag(DiagKind::UnclosedGroup, at)),
            Some(close) => match as_pos(path, 1, close, 0, 0) {
                Some(a) => Ok(copy_range(path, 1, a)),
                None => Ok(copy_range(path, 1, close)),
            },
        }
    } else {
        match last_sep(path, 0, 0, 0, None) {
            Some(sep) => if sep == 0 {
                Err(mk_diag(DiagKind::SelfNotMethod, at))
            } else {
                Ok(copy_range(path, 0, sep))
            },
            None => Err(mk_diag(DiagKind::SelfNotMethod, at)),
        }
    }
}

/// The generic parameter list with bounds and defaults stripped, for the
/// positions where only the parameter names may appear: after the struct
/// name in its declaration and in the implementation headers.  Walks the
/// parameters, copying each up to its first `:` or `=`, dropping a
/// leading `const` keyword, and keeping the commas.
pub open spec fn sp_strip(
    g: Seq<TokV>,
    i: int,
    end: int,
    depth: nat,
    angle: nat,
    copying: bool,
) -> Seq<TokV>
    decreases end - i,
{
    if i >= end {
        Seq::empty()
    } else {
        let t = g[i];
        if t is Open {
            (if copying {
                seq![t]
            } else {
                Seq::empty()
            }) + sp_strip(g, i + 1, end, depth + 1, angle, copying)
        } else if t is Close {
            (if copying {
                seq![t]
            } else {
                Seq::empty()
            }) + sp_strip(g, i + 1, end, if depth > 0 { (depth - 1) as nat } else { 0 }, angle,
                copying)
        } else if depth == 0 && angle == 0 && is_punct_v(t, ',') {
            seq![t] + sp_strip(g, i + 1, end, depth, angle, true)
        } else if copying && depth == 0 && angle == 0 && (is_punct_v(t, ':') || is_punct_v(
            t,
            '=',
        )) {
            sp_strip(g, i + 1, end, depth, angle, false)
        } else if copying && t == TokV::Ident("const"@) {
            sp_strip(g, i + 1, end, depth, angle, true)
        } else if depth == 0 && is_punct_v(t, '<') {
            (if copying {
                seq![t]
            } else {
                Seq::empty()
            }) + sp_strip(g, i + 1, end, depth, angle + 1, copying)
        } else if depth == 0 && angle > 0 && closes_angle(g, i) {
            (if copying {
                seq![t]
            } else {
                Seq::empty()
            }) + sp_strip(g, i + 1, end, depth, (angle - 1) as nat, copying)
        } else {
            (if copying {
                seq![t]
            } else {
                Seq::empty()
            }) + sp_strip(g, i + 1, end, depth, angle, copying)
        }
    }
}

/// The type-position form of a stored generic list: empty stays empty,
/// otherwise `<` stripped-parameters `>`.
pub open spec fn sp_ty_gen(g: Seq<TokV>) -> Seq<TokV> {
    if g.len() == 0 {
        Seq::empty()
    } else {
        seq![TokV::Punct('<', false)] + sp_strip(g, 1, g.len() - 1, 0, 0, true) + seq![
            TokV::Punct('>', false),
        ]
    }
}

fn strip_run(g: &Vec<Tok>, i: usize, end: usize, depth: usize, angle: usize, copying: bool) -> (r:
    Vec<Tok>)
    requires
        end <= g.len(),
        depth <= i,
        angle <= i,
    ensures
        tv(r@) == sp_strip(tv(g@), i as int, end as int, depth as nat, angle as nat, copying),
    decreases end - i,
{
    if i >= end {
        let out: Vec<Tok> = Vec::new();
        proof {
            assert(tv(out@) =~= Seq::<TokV>::empty());
        }
        out
    } else {
        let emit_cur = copying;
        let t = &g[i];
        let (ndepth, nangle, ncopy, emit): (usize, usize, bool, bool) = if crate::token::is_open_any(
            t,
        ) {
            (depth + 1, angle, copying, copying)
        } else if crate::token::is_close_any(t) {
            (if depth > 0 { depth - 1 } else { 0 }, angle, copying, copying)
        } else if depth == 0 && angle == 0 && is_punct(t, ',') {
            (depth, angle, true, true)
        } else if copying && depth == 0 && angle == 0 && (is_punct(t, ':') || is_punct(t, '=')) {
            (depth, angle, false, false)
        } else if copying && ident_is(t, "const") {
            (depth, angle, true, false)
        } else if depth == 0 && is_punct(t, '<') {
            (depth, angle + 1, copying, copying)
        } else if depth == 0 && angle > 0 && is_angle_close(g, i) {
            (depth, angle - 1, copying, copying)
        } else {
            (depth, angle, copying, copying)
        };
        let rest = strip_run(g, i + 1, end, ndepth, nangle, ncopy);
        let mut out: Vec<Tok> = Vec::new();
        if emit {
            push_tok(&mut out, tok_clone(t));
        }
        append_owned(&mut out, rest);
        proof {
            assert(tv(out@) =~= sp_strip(tv(g@), i as int, end as int, depth as nat, angle as nat,
                copying));
        }
        out
    }
}

/// Executable counterpart of [`sp_ty_gen`].
pub fn ty_gen(g: &Vec<Tok>) -> (r: Vec<Tok>)
    ensures
        tv(r@) == sp_ty_gen(tv(g@)),
{
    if g.len() == 0 {
        let out: Vec<Tok> = Vec::new();
        proof {
            assert(tv(out@) =~= Seq::<TokV>::empty());
        }
        out
    } else {
        let mut out: Vec<Tok> = Vec::new();
        push_tok(&mut out, t_punct('<'));
        let inner = strip_run(g, 1, g.len() - 1, 0, 0, true);
        append_owned(&mut out, inner);
        push_tok(&mut out, t_punct('>'));
        proof {
            assert(tv(out@) =~= sp_ty_gen(tv(g@)));
        }
        out
    }
}

/// One parsed declaration.  `struct_gen` and `call_gen` keep their angle
/// brackets; `struct_where` and `call_where` keep the `where` keyword;
/// all are empty when absent.  `receiver_ty` is derived from the callable
/// path when a receiver is declared.
#[derive(Debug, PartialEq, Eq)]
pub struct FnStruct {
    pub attrs: Vec<Vec<Tok>>,
    pub vis: Vec<Tok>,
    pub call_by_ref: bool,
    pub name: String,
    pub struct_gen: Vec<Tok>,
    pub struct_where: Vec<Tok>,
    pub call_gen: Vec<Tok>,
    pub call_where: Vec<Tok>,
    pub fn_path: Vec<Tok>,
    pub fields: Vec<TypedField>,
    pub return_type: Option<Vec<Tok>>,
    pub receiver: Option<TypedField>,
    pub receiver_ty: Option<Vec<Tok>>,
    pub impl_default: bool,
}

/// The mathematical value of a declaration.
pub struct FnStructV {
    pub attrs: Seq<Seq<TokV>>,
    pub vis: Seq<TokV>,
    pub call_by_ref: bool,
    pub name: Seq<char>,
    pub struct_gen: Seq<TokV>,
    pub struct_where: Seq<TokV>,
    pub call_gen: Seq<TokV>,
    pub call_where: Seq<TokV>,
    pub fn_path: Seq<TokV>,
    pub fields: Seq<TypedFieldV>,
    pub return_type: Option<Seq<TokV>>,
    pub receiver: Option<TypedFieldV>,
    pub receiver_ty: Option<Seq<TokV>>,
    pub impl_default: bool,
}

impl View for FnStruct {
    type V = FnStructV;

    open spec fn view(&self) -> FnStructV {
        FnStructV {
            attrs: tvs(self.attrs@),
            vis: tv(self.vis@),
            call_by_ref: self.call_by_ref,
            name: self.name@,
            struct_gen: tv(self.struct_gen@),
            struct_where: tv(self.struct_where@),
            call_gen: tv(self.call_gen@),
            call_where: tv(self.call_where@),
            fn_path: tv(self.fn_path@),
            fields: views(self.fields@),
            return_type: match self.return_type {
                Some(t) => Some(tv(t@)),
                None => None,
            },
            receiver: match self.receiver {
                Some(f) => Some(f@),
                None => None,
            },
            receiver_ty: match self.receiver_ty {
                Some(t) => Some(tv(t@)),
                None => None,
            },
            impl_default: self.impl_default,
        }
    }
}

/// The visibility prefix at `i`: nothing, `pub`, or `pub ( ... )`.
pub open spec fn sp_vis(s: Seq<TokV>, i: int) -> Result<(Seq<TokV>, int), Diag> {
    if i < s.len() && s[i] == TokV::Ident("pub"@) {
        if i + 1 < s.len() && s[i + 1] == TokV::Open(Delim::Paren) {
            match sp_scan_close(s, i + 2, 0) {
                None => Err(diag(DiagKind::UnclosedGroup, i + 1)),
                Some(close) => Ok((s.subrange(i, close + 1), close + 1)),
            }
        } else {
            Ok((s.subrange(i, i + 1), i + 1))
        }
    } else {
        Ok((Seq::empty(), i))
    }
}

/// Executable counterpart of [`sp_vis`].
pub fn parse_vis(toks: &Vec<Tok>, i: usize) -> (r: Result<(Vec<Tok>, usize), Diag>)
    ensures
        match r {
            Ok((vis, j)) => sp_vis(tv(toks@), i as int) == Ok::<(Seq<TokV>, int), Diag>(
                (tv(vis@), j as int),
            ),
            Err(e) => sp_vis(tv(toks@), i as int) == Err::<(Seq<TokV>, int), Diag>(e),
        },
{
    if i < toks.len() && ident_is(&toks[i], "pub") {
        if i + 1 < toks.len() && is_open(&toks[i + 1], Delim::Paren) {
            match scan_close(toks, i + 2, 0) {
                None => Err(mk_diag(DiagKind::UnclosedGroup, i + 1)),
                Some(close) => Ok((copy_range(toks, i, close + 1), close + 1)),
            }
        } else {
            Ok((copy_range(toks, i, i + 1), i + 1))
        }
    } else {
        let out: Vec<Tok> = Vec::new();
        proof {
            assert(tv(out@) =~= Seq::<TokV>::empty());
        }
        Ok((out, i))
    }
}

/// The generic parameter list at `i`, angle brackets included: nothing
/// when `i` does not hold `<`.
pub open spec fn sp_gen(s: Seq<TokV>, i: int) -> Result<(Seq<TokV>, int), Diag> {
    if i < s.len() && is_punct_v(s[i], '<') {
        match sp_angle_close(s, i + 1, 0, 1) {
            None => Err(diag(DiagKind::UnclosedGroup, i)),
            Some(close) => Ok((s.subrange(i, close + 1), close + 1)),
        }
    } else {
        Ok((Seq::empty(), i))
    }
}

/// Executable counterpart of [`sp_gen`].
pub fn parse_gen(toks: &Vec<Tok>, i: usize) -> (r: Result<(Vec<Tok>, usize), Diag>)
    ensures
        match r {
            Ok((g, j)) => sp_gen(tv(toks@), i as int) == Ok::<(Seq<TokV>, int), Diag>(
                (tv(g@), j as int),
            ),
            Err(e) => sp_gen(tv(toks@), i as int) == Err::<(Seq<TokV>, int), Diag>(e),
        },
{
    if i < toks.len() && is_punct(&toks[i], '<') {
        match angle_close(toks, i + 1, 0, 1) {
            None => Err(mk_diag(DiagKind::UnclosedGroup, i)),
            Some(close) => Ok((copy_range(toks, i, close + 1), close + 1)),
        }
    } else {
        let out: Vec<Tok> = Vec::new();
        proof {
            assert(tv(out@) =~= Seq::<TokV>::empty());
        }
        Ok((out, i))
    }
}

/// The `where` clause at `i`, keyword included, running to the delimiter
/// keyword `kw`: nothing when `i` does not hold `where`.
pub open spec fn sp_where_to(s: Seq<TokV>, i: int, kw: Seq<char>) -> (Seq<TokV>, int) {
    if i < s.len() && s[i] == TokV::Ident("where"@) {
        let wend = sp_kw_end(s, i + 1, 0, 0, kw);
        (s.subrange(i, wend), wend)
    } else {
        (Seq::empty(), i)
    }
}

/// Executable counterpart of [`sp_where_to`].
pub fn parse_where_to(toks: &Vec<Tok>, i: usize, kw: &str) -> (r: (Vec<Tok>, usize))
    requires
        i <= toks.len(),
    ensures
        sp_where_to(tv(toks@), i as int, kw@) == (tv(r.0@), r.1 as int),
        i <= r.1 <= toks.len(),
{
    if i < toks.len() && ident_is(&toks[i], "where") {
        let wend = kw_end(toks, i + 1, 0, 0, kw);
        (copy_range(toks, i, wend), wend)
    } else {
        let out: Vec<Tok> = Vec::new();
        proof {
            assert(tv(out@) =~= Seq::<TokV>::empty());
        }
        (out, i)
    }
}

/// The diagnostic for a receiver field that is not in first position.
pub open spec fn sp_self_not_first_diag(fs: Seq<TypedFieldV>) -> Option<Diag>
    decreases fs.len(),
{
    if fs.len() == 0 {
        None
    } else if fs[0].ty is None {
        Some(diag(DiagKind::SelfNotFirst, fs[0].pos))
    } else {
        sp_self_not_first_diag(fs.drop_first())
    }
}

/// Reports a receiver field outside first position, if any.
pub fn check_self_not_first(fields: &Vec<TypedField>) -> (r: Option<Diag>)
    ensures
        r == sp_self_not_first_diag(views(fields@)),
{
    proof {
        assert(views(fields@).skip(0) =~= views(fields@));
    }
    check_self_not_first_from(fields, 0)
}

fn check_self_not_first_from(fields: &Vec<TypedField>, i: usize) -> (r: Option<Diag>)
    requires
        i <= fields.len(),
    ensures
        r == sp_self_not_first_diag(views(fields@).skip(i as int)),
    decreases fields.len() - i,
{
    if i >= fields.len() {
        proof {
            assert(views(fields@).skip(i as int) =~= Seq::<TypedFieldV>::empty());
        }
        None
    } else {
        proof {
            assert(views(fields@).skip(i as int)[0] == fields@[i as int]@);
            assert(views(fields@).skip(i as int).drop_first() =~= views(fields@).skip(
                i as int + 1,
            ));
        }
        if fields[i].ty.is_none() {
            Some(mk_diag(DiagKind::SelfNotFirst, fields[i].pos))
        } else {
            check_self_not_first_from(fields, i + 1)
        }
    }
}

/// How many fields declare a default value.
pub open spec fn sp_count_defaults(fs: Seq<TypedFieldV>) -> int
    decreases fs.len(),
{
    if fs.len() == 0 {
        0
    } else {
        (if fs[0].value is Some {
            1int
        } else {
            0int
        }) + sp_count_defaults(fs.drop_first())
    }
}

/// Counts the fields that declare a default value.
pub fn count_defaults(fields: &Vec<TypedField>) -> (r: usize)
    ensures
        r as int == sp_count_defaults(views(fields@)),
        r <= fields.len(),
{
    proof {
        assert(views(fields@).skip(0) =~= views(fields@));
    }
    count_defaults_from(fields, 0)
}

fn count_defaults_from(fields: &Vec<TypedField>, i: usize) -> (r: usize)
    requires
        i <= fields.len(),
    ensures
        r as int == sp_count_defaults(views(fields@).skip(i as int)),
        r <= fields.len() - i,
    decreases fields.len() - i,
{
    if i >= fields.len() {
        proof {
            assert(views(fields@).skip(i as int) =~= Seq::<TypedFieldV>::empty());
        }
        0
    } else {
        proof {
            assert(views(fields@).skip(i as int)[0] == fields@[i as int]@);
            assert(views(fields@).skip(i as int).drop_first() =~= views(fields@).skip(
                i as int + 1,
            ));
        }
        let rest = count_defaults_from(fields, i + 1);
        if fields[i].value.is_some() {
            rest + 1
        } else {
            rest
        }
    }
}

/// What one declaration's grammar accepts at `i`, and where it ends.
/// After the header and the argument parentheses, the first field may be a
/// receiver (`self` with no type); any other untyped field is an error;
/// either every remaining field has a default value or none does; and a
/// declared receiver requires a callable path from which its type can be
/// read.
pub open spec fn sp_fn_struct_ast(s: Seq<TokV>, i: int) -> Result<(FnStructV, int), Diag> {
    match sp_outer_attrs(s, i) {
        Err(e) => Err(e),
        Ok((attrs, j0)) => match sp_vis(s, j0) {
            Err(e) => Err(e),
            Ok((vis, j1)) => {
                let cbr = j1 < s.len() && is_punct_v(s[j1], '&');
                let j2 = if cbr {
                    j1 + 1
                } else {
                    j1
                };
                if !(j2 < s.len() && s[j2] is Ident) {
                    Err(diag(DiagKind::ExpectedName, j2))
                } else {
                    let name = ident_of(s[j2]);
                    match sp_gen(s, j2 + 1) {
                        Err(e) => Err(e),
                        Ok((sgen, j4)) => {
                            let (swhere, j5) = sp_where_to(s, j4, "for"@);
                            if !(j5 < s.len() && s[j5] == TokV::Ident("for"@)) {
                                Err(diag(DiagKind::ExpectedFor, j5))
                            } else {
                                match sp_gen(s, j5 + 1) {
                                    Err(e) => Err(e),
                                    Ok((cgen, j7)) => {
                                        let (cwhere, j8) = sp_where_to(s, j7, "fn"@);
                                        if !(j8 < s.len() && s[j8] == TokV::Ident("fn"@)) {
                                            Err(diag(DiagKind::ExpectedFn, j8))
                                        } else {
                                            sp_fn_struct_sig(
                                                s,
                                                j8 + 1,
                                                FnStructV {
                                                    attrs,
                                                    vis,
                                                    call_by_ref: cbr,
                                                    name,
                                                    struct_gen: sgen,
                                                    struct_where: swhere,
                                                    call_gen: cgen,
                                                    call_where: cwhere,
                                                    fn_path: Seq::empty(),
                                                    fields: Seq::empty(),
                                                    return_type: None,
                                                    receiver: None,
                                                    receiver_ty: None,
                                                    impl_default: false,
                                                },
                                            )
                                        }
                                    },
                                }
                            }
                        },
                    }
                }
            },
        },
    }
}

/// The signature part of a declaration: the callable path, the argument
/// parentheses, the optional return type, and the field validations.
pub open spec fn sp_fn_struct_sig(s: Seq<TokV>, i: int, head: FnStructV) -> Result<(FnStructV,
    int), Diag> {
    match sp_path_end(s, i, 0, 0) {
        None => Err(diag(DiagKind::ExpectedParen, s.len() as int)),
        Some(p) => if p == i {
            Err(diag(DiagKind::ExpectedPath, i))
        } else {
            let path = s.subrange(i, p);
            match sp_scan_close(s, p + 1, 0) {
                None => Err(diag(DiagKind::UnclosedGroup, p)),
                Some(close) => {
                    let ret = if close + 2 < s.len() && s[close + 1] == TokV::Punct('-', true)
                        && is_punct_v(s[close + 2], '>') {
                        let tend = sp_type_end(s, close + 3, 0, 0);
                        if tend == close + 3 {
                            Err(diag(DiagKind::ExpectedType, close + 3))
                        } else {
                            Ok((Some(s.subrange(close + 3, tend)), tend))
                        }
                    } else {
                        Ok((None::<Seq<TokV>>, close + 1))
                    };
                    match ret {
                        Err(e) => Err(e),
                        Ok((return_type, j)) => match sp_typed_fields(s, p + 1, close) {
                            Err(e) => Err(e),
                            Ok(allfields) => {
                                let has_recv = allfields.len() > 0 && allfields[0].ty is None;
                                let receiver = if has_recv {
                                    Some(allfields[0])
                                } else {
                                    None
                                };
                                let fields = if has_recv {
                                    allfields.drop_first()
                                } else {
                                    allfields
                                };
                                match sp_self_not_first_diag(fields) {
                                    Some(d) => Err(d),
                                    None => {
                                        let c = sp_count_defaults(fields);
                                        if c != 0 && c != fields.len() {
                                            Err(diag(DiagKind::MixedDefaults, p))
                                        } else {
                                            let rty = if has_recv {
                                                sp_receiver_ty(path, i)
                                            } else {
                                                Ok(Seq::empty())
                                            };
                                            match rty {
                                                Err(e) => Err(e),
                                                Ok(rt) => Ok(
                                                    (
                                                        FnStructV {
                                                            fn_path: path,
                                                            fields,
                                                            return_type,
                                                            receiver,
                                                            receiver_ty: if has_recv {
                                                                Some(rt)
                                                            } else {
                                                                None
                                                            },
                                                            impl_default: c > 0,
                                                            ..head
                                                        },
                                                        j,
                                                    ),
                                                ),
                                            }
                                        }
                                    },
                                }
                            },
                        },
                    }
                },
            }
        },
    }
}

pub proof fn lemma_sp_vis_next(s: Seq<TokV>, i: int)
    requires
        0 <= i <= s.len(),
    ensures
        sp_vis(s, i) matches Ok((v, j)) ==> i <= j <= s.len(),
{
    if i < s.len() && s[i] == TokV::Ident("pub"@) && i + 1 < s.len() && s[i + 1] == TokV::Open(
        Delim::Paren,
    ) {
        lemma_scan_close_bounds(s, i + 2, 0);
    }
}

pub proof fn lemma_sp_gen_next(s: Seq<TokV>, i: int)
    requires
        0 <= i <= s.len(),
    ensures
        sp_gen(s, i) matches Ok((g, j)) ==> i <= j <= s.len(),
{
    if i < s.len() && is_punct_v(s[i], '<') {
        lemma_angle_close_bounds(s, i + 1, 0, 1);
    }
}

pub proof fn lemma_sp_where_to_bounds(s: Seq<TokV>, i: int, kw: Seq<char>)
    requires
        0 <= i <= s.len(),
    ensures
        i <= sp_where_to(s, i, kw).1 <= s.len(),
{
    if i < s.len() && s[i] == TokV::Ident("where"@) {
        lemma_kw_end_bounds(s, i + 1, 0, 0, kw);
    }
}

pub proof fn lemma_sp_sig_next(s: Seq<TokV>, i: int, head: FnStructV)
    requires
        0 <= i <= s.len(),
    ensures
        sp_fn_struct_sig(s, i, head) matches Ok((a, j)) ==> i < j <= s.len(),
{
    lemma_path_end_bounds(s, i, 0, 0);
    match sp_path_end(s, i, 0, 0) {
        None => {},
        Some(p) => {
            lemma_scan_close_bounds(s, p + 1, 0);
            match sp_scan_close(s, p + 1, 0) {
                None => {},
                Some(close) => {
                    if close + 2 < s.len() && s[close + 1] == TokV::Punct('-', true)
                        && is_punct_v(s[close + 2], '>') {
                        lemma_type_end_bounds(s, close + 3, 0, 0);
                    }
                },
            }
        },
    }
}

pub proof fn lemma_sp_fn_struct_ast_next(s: Seq<TokV>, i: int)
    requires
        0 <= i <= s.len(),
    ensures
        sp_fn_struct_ast(s, i) matches Ok((a, j)) ==> i < j <= s.len(),
{
    lemma_sp_outer_attrs_next(s, i);
    match sp_outer_attrs(s, i) {
        Err(_) => {},
        Ok((attrs, j0)) => {
            lemma_sp_vis_next(s, j0);
            match sp_vis(s, j0) {
                Err(_) => {},
                Ok((vis, j1)) => {
                    let cbr = j1 < s.len() && is_punct_v(s[j1], '&');
                    let j2 = if cbr {
                        j1 + 1
                    } else {
                        j1
                    };
                    if j2 < s.len() && s[j2] is Ident {
                        lemma_sp_gen_next(s, j2 + 1);
                        match sp_gen(s, j2 + 1) {
                            Err(_) => {},
                            Ok((sgen, j4)) => {
                                lemma_sp_where_to_bounds(s, j4, "for"@);
                                let (swhere, j5) = sp_where_to(s, j4, "for"@);
                                if j5 < s.len() && s[j5] == TokV::Ident("for"@) {
                                    lemma_sp_gen_next(s, j5 + 1);
                                    match sp_gen(s, j5 + 1) {
                                        Err(_) => {},
                                        Ok((cgen, j7)) => {
                                            lemma_sp_where_to_bounds(s, j7, "fn"@);
                                            let (cwhere, j8) = sp_where_to(s, j7, "fn"@);
                                            if j8 < s.len() && s[j8] == TokV::Ident("fn"@) {
                                                let head = FnStructV {
                                                    attrs,
                                                    vis,
                                                    call_by_ref: cbr,
                                                    name: ident_of(s[j2]),
                                                    struct_gen: sgen,
                                                    struct_where: swhere,
                                                    call_gen: cgen,
                                                    call_where: cwhere,
                                                    fn_path: Seq::empty(),
                                                    fields: Seq::empty(),
                                                    return_type: None,
                                                    receiver: None,
                                                    receiver_ty: None,
                                                    impl_default: false,
                                                };
                                                lemma_sp_sig_next(s, j8 + 1, head);
                                            }
                                        },
                                    }
                                }
                            },
                        }
                    }
                },
            }
        },
    }
}

/// Whether the executable result `r` is exactly what [`sp_fn_struct_ast`]
/// says.
pub open spec fn fn_struct_res_matches(
    s: Seq<TokV>,
    i: int,
    r: Result<(FnStruct, usize), Diag>,
) -> bool {
    match r {
        Ok((a, j)) => sp_fn_struct_ast(s, i) == Ok::<(FnStructV, int), Diag>((a@, j as int)),
        Err(e) => sp_fn_struct_ast(s, i) == Err::<(FnStructV, int), Diag>(e),
    }
}

impl FnStruct {
    /// Parses one declaration at `i`.
    #[verifier::rlimit(60)]
    pub fn parse(toks: &Vec<Tok>, i: usize) -> (r: Result<(FnStruct, usize), Diag>)
        requires
            i <= toks.len(),
        ensures
            fn_struct_res_matches(tv(toks@), i as int, r),
    {
        let (attrs, j0) = match parse_outer_attrs(toks, i) {
            Err(e) => {
                return Err(e);
            },
            Ok(x) => x,
        };
        let (vis, j1) = match parse_vis(toks, j0) {
            Err(e) => {
                return Err(e);
            },
            Ok(x) => x,
        };
        let cbr = j1 < toks.len() && is_punct(&toks[j1], '&');
        let j2 = if cbr {
            j1 + 1
        } else {
            j1
        };
        if !(j2 < toks.len() && is_ident(&toks[j2])) {
            return Err(mk_diag(DiagKind::ExpectedName, j2));
        }
        let name = ident_text(&toks[j2]);
        let (sgen, j4) = match parse_gen(toks, j2 + 1) {
            Err(e) => {
                return Err(e);
            },
            Ok(x) => x,
        };
        proof {
            lemma_sp_gen_next(tv(toks@), j2 as int + 1);
        }
        let (swhere, j5) = parse_where_to(toks, j4, "for");
        if !(j5 < toks.len() && ident_is(&toks[j5], "for")) {
            return Err(mk_diag(DiagKind::ExpectedFor, j5));
        }
        let (cgen, j7) = match parse_gen(toks, j5 + 1) {
            Err(e) => {
                return Err(e);
            },
            Ok(x) => x,
        };
        proof {
            lemma_sp_gen_next(tv(toks@), j5 as int + 1);
        }
        let (cwhere, j8) = parse_where_to(toks, j7, "fn");
        if !(j8 < toks.len() && ident_is(&toks[j8], "fn")) {
            return Err(mk_diag(DiagKind::ExpectedFn, j8));
        }
        let i9 = j8 + 1;
        let p = match path_end(toks, i9, 0, 0) {
            None => {
                return Err(mk_diag(DiagKind::ExpectedParen, toks.len()));
            },
            Some(p) => p,
        };
        if p == i9 {
            return Err(mk_diag(DiagKind::ExpectedPath, i9));
        }
        let path = copy_range(toks, i9, p);
        let close = match scan_close(toks, p + 1, 0) {
            None => {
                return Err(mk_diag(DiagKind::UnclosedGroup, p));
            },
            Some(c) => c,
        };
        let (return_type, j): (Option<Vec<Tok>>, usize) = if toks.len() - close > 2
            && is_joint_punct(&toks[close + 1], '-') && is_punct(&toks[close + 2], '>') {
            let tend = type_end(toks, close + 3, 0, 0);
            if tend == close + 3 {
                return Err(mk_diag(DiagKind::ExpectedType, close + 3));
            }
            (Some(copy_range(toks, close + 3, tend)), tend)
        } else {
            (None, close + 1)
        };
        let mut allfields = match parse_typed_fields(toks, p + 1, close) {
            Err(e) => {
                return Err(e);
            },
            Ok(x) => x,
        };
        let has_recv = allfields.len() > 0 && allfields[0].ty.is_none();
        let ghost allv = views(allfields@);
        let receiver: Option<TypedField> = if has_recv {
            let rf = allfields.remove(0);
            proof {
                assert(views(allfields@) =~= allv.drop_first());
            }
            Some(rf)
        } else {
            None
        };
        let fields = allfields;
        match check_self_not_first(&fields) {
            Some(d) => {
                return Err(d);
            },
            None => {},
        }
        let c = count_defaults(&fields);
        if c != 0 && c != fields.len() {
            return Err(mk_diag(DiagKind::MixedDefaults, p));
        }
        let receiver_ty: Option<Vec<Tok>> = if has_recv {
            match receiver_ty(&path, i9) {
                Err(e) => {
                    return Err(e);
                },
                Ok(rt) => Some(rt),
            }
        } else {
            None
        };
        Ok(
            (
                FnStruct {
                    attrs,
                    vis,
                    call_by_ref: cbr,
                    name,
                    struct_gen: sgen,
                    struct_where: swhere,
                    call_gen: cgen,
                    call_where: cwhere,
                    fn_path: path,
                    fields,
                    return_type,
                    receiver,
                    receiver_ty,
                    impl_default: c > 0,
                },
                j,
            ),
        )
    }
}

/// The reference prefix a receiver modifier contributes.
pub open spec fn sp_recv_mod(m: ModifierV) -> Seq<TokV> {
    match m {
        ModifierV::Ref => sp_amp(),
        ModifierV::RefMut => sp_amp_mut(),
        _ => Seq::empty(),
    }
}

/// The extra `__self : [&|&mut] Ty ,` parameter of the call method when a
/// receiver was declared.
pub open spec fn sp_self_in_arg(a: FnStructV) -> Seq<TokV> {
    match (a.receiver, a.receiver_ty) {
        (Some(rf), Some(rt)) => seq![TokV::Ident("__self"@), TokV::Punct(':', false)]
            + sp_recv_mod(rf.modifier) + rt + seq![TokV::Punct(',', false)],
        _ => Seq::empty(),
    }
}

/// The `__self ,` first argument of the invocation when a receiver was
/// declared.
pub open spec fn sp_self_out_arg(a: FnStructV) -> Seq<TokV> {
    if a.receiver is Some {
        seq![TokV::Ident("__self"@), TokV::Punct(',', false)]
    } else {
        Seq::empty()
    }
}

/// The declared return type, or the unit type when none was declared, so
/// that a mismatch surfaces as a diagnostic on the invocation.
pub open spec fn sp_ret_toks(rt: Option<Seq<TokV>>) -> Seq<TokV> {
    match rt {
        Some(t) => t,
        None => seq![TokV::Open(Delim::Paren), TokV::Close(Delim::Paren)],
    }
}

/// The tokens of a `::` path separator.
pub open spec fn sp_pathsep() -> Seq<TokV> {
    seq![TokV::Punct(':', true), TokV::Punct(':', false)]
}

/// The stored type of a field, empty for a receiver.
pub open spec fn sp_field_ty(f: TypedFieldV) -> Seq<TokV> {
    match f.ty {
        Some(t) => t,
        None => Seq::empty(),
    }
}

/// The default value of a field, empty when none was declared.
pub open spec fn sp_field_default(f: TypedFieldV) -> Seq<TokV> {
    match f.value {
        Some(v) => v,
        None => Seq::empty(),
    }
}

/// The first `n` declared fields `name : Type`, comma-separated.
pub open spec fn sp_decl_typed_prefix(fs: Seq<TypedFieldV>, n: int) -> Seq<TokV>
    decreases n,
{
    if n <= 0 {
        Seq::empty()
    } else if n == 1 {
        seq![TokV::Ident(fs[0].name), TokV::Punct(':', false)] + sp_field_ty(fs[0])
    } else {
        sp_decl_typed_prefix(fs, n - 1) + seq![
            TokV::Punct(',', false),
            TokV::Ident(fs[n - 1].name),
            TokV::Punct(':', false),
        ] + sp_field_ty(fs[n - 1])
    }
}

/// The first `n` default assignments `name : default`, comma-separated.
pub open spec fn sp_default_vals_prefix(fs: Seq<TypedFieldV>, n: int) -> Seq<TokV>
    decreases n,
{
    if n <= 0 {
        Seq::empty()
    } else if n == 1 {
        seq![TokV::Ident(fs[0].name), TokV::Punct(':', false)] + sp_field_default(fs[0])
    } else {
        sp_default_vals_prefix(fs, n - 1) + seq![
            TokV::Punct(',', false),
            TokV::Ident(fs[n - 1].name),
            TokV::Punct(':', false),
        ] + sp_field_default(fs[n - 1])
    }
}

/// One argument of the invocation: the field's modifier applied to
/// `self . name`.
pub open spec fn sp_call_arg(f: TypedFieldV) -> Seq<TokV> {
    sp_apply_modifier(
        f.modifier,
        seq![TokV::Ident("self"@), TokV::Punct('.', false), TokV::Ident(f.name)],
    )
}

/// The first `n` arguments of the invocation, comma-separated.
pub open spec fn sp_call_args_prefix(fs: Seq<TypedFieldV>, n: int) -> Seq<TokV>
    decreases n,
{
    if n <= 0 {
        Seq::empty()
    } else if n == 1 {
        sp_call_arg(fs[0])
    } else {
        sp_call_args_prefix(fs, n - 1) + seq![TokV::Punct(',', false)] + sp_call_arg(fs[n - 1])
    }
}

/// The default-trait implementation emitted when every field declares a
/// default value.
pub open spec fn sp_default_impl(a: FnStructV) -> Seq<TokV> {
    seq![TokV::Ident("impl"@)] + a.struct_gen + sp_pathsep() + seq![TokV::Ident("core"@)]
        + sp_pathsep() + seq![TokV::Ident("default"@)] + sp_pathsep() + seq![
        TokV::Ident("Default"@),
        TokV::Ident("for"@),
        TokV::Ident(a.name),
    ] + sp_ty_gen(a.struct_gen) + a.struct_where + seq![
        TokV::Open(Delim::Brace),
        TokV::Ident("fn"@),
        TokV::Ident("default"@),
        TokV::Open(Delim::Paren),
        TokV::Close(Delim::Paren),
        TokV::Punct('-', true),
        TokV::Punct('>', false),
        TokV::Ident("Self"@),
        TokV::Open(Delim::Brace),
        TokV::Ident("Self"@),
        TokV::Open(Delim::Brace),
    ] + sp_default_vals_prefix(a.fields, a.fields.len() as int) + seq![
        TokV::Close(Delim::Brace),
        TokV::Close(Delim::Brace),
        TokV::Close(Delim::Brace),
    ]
}

/// The declared struct type: the forwarded attributes, the visibility,
/// the name with its bound-free generics, and the stored fields.
pub open spec fn sp_render_head(a: FnStructV) -> Seq<TokV> {
    crate::anon::sp_attrs_prefix(a.attrs, a.attrs.len() as int) + a.vis + seq![
        TokV::Ident("struct"@),
        TokV::Ident(a.name),
    ] + sp_ty_gen(a.struct_gen) + seq![TokV::Open(Delim::Brace)] + sp_decl_typed_prefix(
        a.fields,
        a.fields.len() as int,
    ) + seq![TokV::Close(Delim::Brace)]
}

/// The implementation holding the `call` method.
pub open spec fn sp_render_call(a: FnStructV) -> Seq<TokV> {
    seq![TokV::Ident("impl"@)] + a.struct_gen + seq![TokV::Ident(a.name)] + sp_ty_gen(
        a.struct_gen,
    ) + a.struct_where + seq![
        TokV::Open(Delim::Brace),
        TokV::Ident("pub"@),
        TokV::Ident("fn"@),
        TokV::Ident("call"@),
    ] + a.call_gen + seq![TokV::Open(Delim::Paren)] + (if a.call_by_ref {
        sp_amp()
    } else {
        Seq::empty()
    }) + seq![TokV::Ident("self"@), TokV::Punct(',', false)] + sp_self_in_arg(a) + seq![
        TokV::Close(Delim::Paren),
        TokV::Punct('-', true),
        TokV::Punct('>', false),
    ] + sp_ret_toks(a.return_type) + a.call_where + seq![TokV::Open(Delim::Brace)] + a.fn_path
        + seq![TokV::Open(Delim::Paren)] + sp_self_out_arg(a) + sp_call_args_prefix(
        a.fields,
        a.fields.len() as int,
    ) + seq![TokV::Close(Delim::Paren), TokV::Close(Delim::Brace), TokV::Close(Delim::Brace)]
}

/// The full expansion of one declaration: the struct type over the
/// non-receiver fields, the optional default implementation, and the
/// `call` method forwarding the receiver (if any) and then every field
/// with its modifier applied.
pub open spec fn sp_fn_struct_render(a: FnStructV) -> Seq<TokV> {
    sp_render_head(a) + (if a.impl_default {
        sp_default_impl(a)
    } else {
        Seq::empty()
    }) + sp_render_call(a)
}

impl FnStruct {
    fn expand_head(&self) -> (r: Vec<Tok>)
        ensures
            tv(r@) == sp_render_head(self@),
    {
        let ghost av = self@;
        let ghost attrsv = tvs(self.attrs@);
        let ghost fieldsv = views(self.fields@);
        let mut out: Vec<Tok> = Vec::new();
        let mut i: usize = 0;
        proof {
            assert(tv(out@) =~= crate::anon::sp_attrs_prefix(attrsv, 0));
        }
        while i < self.attrs.len()
            invariant
                i <= self.attrs.len(),
                attrsv == tvs(self.attrs@),
                tv(out@) == crate::anon::sp_attrs_prefix(attrsv, i as int),
            decreases self.attrs.len() - i,
        {
            push_tok(&mut out, t_punct('#'));
            push_tok(&mut out, Tok::Open(Delim::Bracket));
            append_copy(&mut out, &self.attrs[i]);
            push_tok(&mut out, Tok::Close(Delim::Bracket));
            proof {
                assert(tv(self.attrs@[i as int]@) == attrsv[i as int]);
                assert(tv(out@) =~= crate::anon::sp_attrs_prefix(attrsv, i as int + 1));
            }
            i = i + 1;
        }
        append_copy(&mut out, &self.vis);
        push_tok(&mut out, t_ident("struct"));
        push_tok(&mut out, Tok::Ident(self.name.clone()));
        let tg = ty_gen(&self.struct_gen);
        append_copy(&mut out, &tg);
        push_tok(&mut out, Tok::Open(Delim::Brace));
        let ghost sec1 = crate::anon::sp_attrs_prefix(attrsv, attrsv.len() as int) + av.vis
            + seq![TokV::Ident("struct"@), TokV::Ident(av.name)] + sp_ty_gen(av.struct_gen)
            + seq![TokV::Open(Delim::Brace)];
        proof {
            assert(tv(out@) =~= sec1 + sp_decl_typed_prefix(fieldsv, 0));
        }
        let mut k: usize = 0;
        while k < self.fields.len()
            invariant
                k <= self.fields.len(),
                fieldsv == views(self.fields@),
                tv(out@) == sec1 + sp_decl_typed_prefix(fieldsv, k as int),
            decreases self.fields.len() - k,
        {
            if k > 0 {
                push_tok(&mut out, t_punct(','));
            }
            push_tok(&mut out, Tok::Ident(self.fields[k].name.clone()));
            push_tok(&mut out, t_punct(':'));
            match &self.fields[k].ty {
                Some(t) => {
                    append_copy(&mut out, t);
                },
                None => {},
            }
            proof {
                assert(self.fields@[k as int]@ == fieldsv[k as int]);
                assert(tv(out@) =~= sec1 + sp_decl_typed_prefix(fieldsv, k as int + 1));
            }
            k = k + 1;
        }
        push_tok(&mut out, Tok::Close(Delim::Brace));
        proof {
            assert(tv(out@) =~= sp_render_head(av));
        }
        out
    }

    fn expand_default(&self) -> (r: Vec<Tok>)
        ensures
            tv(r@) == sp_default_impl(self@),
    {
        let ghost av = self@;
        let ghost fieldsv = views(self.fields@);
        let mut out: Vec<Tok> = Vec::new();
        push_tok(&mut out, t_ident("impl"));
        append_copy(&mut out, &self.struct_gen);
        push_tok(&mut out, t_joint(':'));
        push_tok(&mut out, t_punct(':'));
        push_tok(&mut out, t_ident("core"));
        push_tok(&mut out, t_joint(':'));
        push_tok(&mut out, t_punct(':'));
        push_tok(&mut out, t_ident("default"));
        push_tok(&mut out, t_joint(':'));
        push_tok(&mut out, t_punct(':'));
        push_tok(&mut out, t_ident("Default"));
        push_tok(&mut out, t_ident("for"));
        push_tok(&mut out, Tok::Ident(self.name.clone()));
        let tg = ty_gen(&self.struct_gen);
        append_copy(&mut out, &tg);
        append_copy(&mut out, &self.struct_where);
        push_tok(&mut out, Tok::Open(Delim::Brace));
        push_tok(&mut out, t_ident("fn"));
        push_tok(&mut out, t_ident("default"));
        push_tok(&mut out, Tok::Open(Delim::Paren));
        push_tok(&mut out, Tok::Close(Delim::Paren));
        push_tok(&mut out, t_joint('-'));
        push_tok(&mut out, t_punct('>'));
        push_tok(&mut out, t_ident("Self"));
        push_tok(&mut out, Tok::Open(Delim::Brace));
        push_tok(&mut out, t_ident("Self"));
        push_tok(&mut out, Tok::Open(Delim::Brace));
        let ghost dsec = seq![TokV::Ident("impl"@)] + av.struct_gen + sp_pathsep() + seq![
            TokV::Ident("core"@),
        ] + sp_pathsep() + seq![TokV::Ident("default"@)] + sp_pathsep() + seq![
            TokV::Ident("Default"@),
            TokV::Ident("for"@),
            TokV::Ident(av.name),
        ] + sp_ty_gen(av.struct_gen) + av.struct_where + seq![
            TokV::Open(Delim::Brace),
            TokV::Ident("fn"@),
            TokV::Ident("default"@),
            TokV::Open(Delim::Paren),
            TokV::Close(Delim::Paren),
            TokV::Punct('-', true),
            TokV::Punct('>', false),
            TokV::Ident("Self"@),
            TokV::Open(Delim::Brace),
            TokV::Ident("Self"@),
            TokV::Open(Delim::Brace),
        ];
        proof {
            assert(tv(out@) =~= dsec + sp_default_vals_prefix(fieldsv, 0));
        }
        let mut d: usize = 0;
        while d < self.fields.len()
            invariant
                d <= self.fields.len(),
                fieldsv == views(self.fields@),
                tv(out@) == dsec + sp_default_vals_prefix(fieldsv, d as int),
            decreases self.fields.len() - d,
        {
            if d > 0 {
                push_tok(&mut out, t_punct(','));
            }
            push_tok(&mut out, Tok::Ident(self.fields[d].name.clone()));
            push_tok(&mut out, t_punct(':'));
            match &self.fields[d].value {
                Some(v) => {
                    append_copy(&mut out, v);
                },
                None => {},
            }
            proof {
                assert(self.fields@[d as int]@ == fieldsv[d as int]);
                assert(tv(out@) =~= dsec + sp_default_vals_prefix(fieldsv, d as int + 1));
            }
            d = d + 1;
        }
        push_tok(&mut out, Tok::Close(Delim::Brace));
        push_tok(&mut out, Tok::Close(Delim::Brace));
        push_tok(&mut out, Tok::Close(Delim::Brace));
        proof {
            assert(tv(out@) =~= sp_default_impl(av));
        }
        out
    }

    #[verifier::rlimit(100)]
    fn expand_call(&self) -> (r: Vec<Tok>)
        ensures
            tv(r@) == sp_render_call(self@),
    {
        let ghost av = self@;
        let ghost fieldsv = views(self.fields@);
        let mut out: Vec<Tok> = Vec::new();
        push_tok(&mut out, t_ident("impl"));
        append_copy(&mut out, &self.struct_gen);
        push_tok(&mut out, Tok::Ident(self.name.clone()));
        let tg = ty_gen(&self.struct_gen);
        append_copy(&mut out, &tg);
        append_copy(&mut out, &self.struct_where);
        push_tok(&mut out, Tok::Open(Delim::Brace));
        push_tok(&mut out, t_ident("pub"));
        push_tok(&mut out, t_ident("fn"));
        push_tok(&mut out, t_ident("call"));
        append_copy(&mut out, &self.call_gen);
        push_tok(&mut out, Tok::Open(Delim::Paren));
        let ghost g1 = seq![TokV::Ident("impl"@)] + av.struct_gen + seq![TokV::Ident(av.name)]
            + sp_ty_gen(av.struct_gen) + av.struct_where + seq![
            TokV::Open(Delim::Brace),
            TokV::Ident("pub"@),
            TokV::Ident("fn"@),
            TokV::Ident("call"@),
        ] + av.call_gen + seq![TokV::Open(Delim::Paren)];
        proof {
            assert(tv(out@) =~= g1);
        }
        if self.call_by_ref {
            push_tok(&mut out, t_punct('&'));
        }
        push_tok(&mut out, t_ident("self"));
        push_tok(&mut out, t_punct(','));
        let ghost g2 = g1 + (if av.call_by_ref {
            sp_amp()
        } else {
            Seq::<TokV>::empty()
        }) + seq![TokV::Ident("self"@), TokV::Punct(',', false)];
        proof {
            assert(tv(out@) =~= g2);
        }
        match (&self.receiver, &self.receiver_ty) {
            (Some(rf), Some(rt)) => {
                push_tok(&mut out, t_ident("__self"));
                push_tok(&mut out, t_punct(':'));
                match &rf.modifier {
                    SpreadModifier::Ref => {
                        push_tok(&mut out, t_punct('&'));
                    },
                    SpreadModifier::RefMut => {
                        push_tok(&mut out, t_punct('&'));
                        push_tok(&mut out, t_ident("mut"));
                    },
                    _ => {},
                }
                append_copy(&mut out, rt);
                push_tok(&mut out, t_punct(','));
                proof {
                    assert(tv(out@) =~= g2 + sp_self_in_arg(av));
                }
            },
            _ => {
                proof {
                    assert(tv(out@) =~= g2 + sp_self_in_arg(av));
                }
            },
        }
        push_tok(&mut out, Tok::Close(Delim::Paren));
        push_tok(&mut out, t_joint('-'));
        push_tok(&mut out, t_punct('>'));
        match &self.return_type {
            Some(t) => {
                append_copy(&mut out, t);
            },
            None => {
                push_tok(&mut out, Tok::Open(Delim::Paren));
                push_tok(&mut out, Tok::Close(Delim::Paren));
            },
        }
        let ghost g3 = g2 + sp_self_in_arg(av) + seq![
            TokV::Close(Delim::Paren),
            TokV::Punct('-', true),
            TokV::Punct('>', false),
        ] + sp_ret_toks(av.return_type);
        proof {
            assert(tv(out@) =~= g3);
        }
        append_copy(&mut out, &self.call_where);
        push_tok(&mut out, Tok::Open(Delim::Brace));
        append_copy(&mut out, &self.fn_path);
        push_tok(&mut out, Tok::Open(Delim::Paren));
        if self.receiver.is_some() {
            push_tok(&mut out, t_ident("__self"));
            push_tok(&mut out, t_punct(','));
        }
        let ghost sec4 = g3 + av.call_where + seq![TokV::Open(Delim::Brace)] + av.fn_path + seq![
            TokV::Open(Delim::Paren),
        ] + sp_self_out_arg(av);
        proof {
            assert(tv(out@) =~= sec4 + sp_call_args_prefix(fieldsv, 0));
        }
        let mut m: usize = 0;
        while m < self.fields.len()
            invariant
                m <= self.fields.len(),
                fieldsv == views(self.fields@),
                tv(out@) == sec4 + sp_call_args_prefix(fieldsv, m as int),
            decreases self.fields.len() - m,
        {
            if m > 0 {
                push_tok(&mut out, t_punct(','));
            }
            let f = &self.fields[m];
            let mut src: Vec<Tok> = Vec::new();
            push_tok(&mut src, t_ident("self"));
            push_tok(&mut src, t_punct('.'));
            push_tok(&mut src, Tok::Ident(f.name.clone()));
            let pf = f.to_field();
            let value = pf.value_with_modifiers(src);
            append_owned(&mut out, value);
            proof {
                assert(self.fields@[m as int]@ == fieldsv[m as int]);
                assert(tv(out@) =~= sec4 + sp_call_args_prefix(fieldsv, m as int + 1));
            }
            m = m + 1;
        }
        push_tok(&mut out, Tok::Close(Delim::Paren));
        push_tok(&mut out, Tok::Close(Delim::Brace));
        push_tok(&mut out, Tok::Close(Delim::Brace));
        proof {
            assert(tv(out@) =~= sp_render_call(av));
        }
        out
    }

    /// Renders the expansion of one declaration.
    pub fn expand(&self) -> (r: Vec<Tok>)
        ensures
            tv(r@) == sp_fn_struct_render(self@),
    {
        let mut out = self.expand_head();
        if self.impl_default {
            let dft = self.expand_default();
            append_owned(&mut out, dft);
        }
        let call = self.expand_call();
        append_owned(&mut out, call);
        proof {
            assert(tv(out@) =~= sp_fn_struct_render(self@));
        }
        out
    }
}

/// What the whole macro returns: the concatenated expansions of the
/// `;`-separated declarations, or the first diagnostic.
pub open spec fn sp_fn_structs(s: Seq<TokV>, i: int) -> Result<Seq<TokV>, Diag>
    decreases s.len() - i,
        when 0 <= i <= s.len()
        via sp_fn_structs_dec
{
    match sp_fn_struct_ast(s, i) {
        Err(e) => Err(e),
        Ok((a, j)) => if j >= s.len() {
            Ok(sp_fn_struct_render(a))
        } else if is_punct_v(s[j], ';') {
            if j + 1 >= s.len() {
                Ok(sp_fn_struct_render(a))
            } else {
                match sp_fn_structs(s, j + 1) {
                    Err(e) => Err(e),
                    Ok(rest) => Ok(sp_fn_struct_render(a) + rest),
                }
            }
        } else {
            Err(diag(DiagKind::ExpectedEnd, j))
        },
    }
}

#[via_fn]
proof fn sp_fn_structs_dec(s: Seq<TokV>, i: int) {
    if 0 <= i <= s.len() {
        lemma_sp_fn_struct_ast_next(s, i);
    }
}

/// The entry point's contract: parse and render from the start.
pub open spec fn sp_fn_struct(s: Seq<TokV>) -> Result<Seq<TokV>, Diag> {
    sp_fn_structs(s, 0)
}

fn fn_structs_from(toks: &Vec<Tok>, i: usize) -> (r: Result<Vec<Tok>, Diag>)
    requires
        i <= toks.len(),
    ensures
        match r {
            Ok(out) => sp_fn_structs(tv(toks@), i as int) == Ok::<Seq<TokV>, Diag>(tv(out@)),
            Err(e) => sp_fn_structs(tv(toks@), i as int) == Err::<Seq<TokV>, Diag>(e),
        },
    decreases toks.len() - i,
{
    match FnStruct::parse(toks, i) {
        Err(e) => Err(e),
        Ok((a, j)) => {
            proof {
                lemma_sp_fn_struct_ast_next(tv(toks@), i as int);
            }
            let rendered = a.expand();
            if j >= toks.len() {
                Ok(rendered)
            } else if is_punct(&toks[j], ';') {
                if j + 1 >= toks.len() {
                    Ok(rendered)
                } else {
                    match fn_structs_from(toks, j + 1) {
                        Err(e) => Err(e),
                        Ok(rest) => {
                            let mut out = rendered;
                            append_owned(&mut out, rest);
                            Ok(out)
                        },
                    }
                }
            } else {
                Err(mk_diag(DiagKind::ExpectedEnd, j))
            }
        },
    }
}

/// Expands one or more `;`-separated declarations, or reports the
/// diagnostic that [`sp_fn_struct`] fixes for this input.
pub fn fn_struct(toks: &Vec<Tok>) -> (r: Result<Vec<Tok>, Diag>)
    ensures
        match r {
            Ok(out) => sp_fn_struct(tv(toks@)) == Ok::<Seq<TokV>, Diag>(tv(out@)),
            Err(e) => sp_fn_struct(tv(toks@)) == Err::<Seq<TokV>, Diag>(e),
        },
{
    fn_structs_from(toks, 0)
}

} // verus!
