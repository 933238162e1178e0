//! Low-level scanners over token sequences.
//!
//! The grammars treat expressions, types, generic parameter lists and paths
//! as opaque token runs; these scanners find where such a run ends.  Each
//! scanner exists twice: a specification-level recursive function defining
//! the exact answer, and an executable function proved to return it.
//!
//! Conventions shared by all scanners:
//! - `depth` counts open delimiter groups; commas and closing delimiters
//!   only matter at depth 0.
//! - `angle` counts `<`/`>` pairs at group depth 0, where a `>` directly
//!   preceded by `-` (an arrow `->`) never closes an angle.
//! - a closing delimiter at depth 0 belongs to an enclosing group and ends
//!   the run without being consumed.

use vstd::prelude::*;

use crate::token::{is_close_any, is_open, is_open_any, is_punct, is_punct_v, tv, Delim, Tok,
    TokV};

verus! {

/// The index of the closing delimiter matching an already-consumed opening
/// one, scanning from `i` with `depth` groups still open besides it.
pub open spec fn sp_scan_close(s: Seq<TokV>, i: int, depth: nat) -> Option<int>
    decreases s.len() - i,
{
    if i >= s.len() {
        None
    } else if s[i] is Close {
        if depth == 0 {
            Some(i)
        } else {
            sp_scan_close(s, i + 1, (depth - 1) as nat)
        }
    } else if s[i] is Open {
        sp_scan_close(s, i + 1, depth + 1)
    } else {
        sp_scan_close(s, i + 1, depth)
    }
}

pub proof fn lemma_scan_close_bounds(s: Seq<TokV>, i: int, depth: nat)
    requires
        0 <= i,
    ensures
        sp_scan_close(s, i, depth) matches Some(j) ==> i <= j < s.len(),
    decreases s.len() - i,
{
    if i < s.len() {
        if s[i] is Close {
            if depth > 0 {
                lemma_scan_close_bounds(s, i + 1, (depth - 1) as nat);
            }
        } else if s[i] is Open {
            lemma_scan_close_bounds(s, i + 1, depth + 1);
        } else {
            lemma_scan_close_bounds(s, i + 1, depth);
        }
    }
}

/// Executable counterpart of [`sp_scan_close`].
pub fn scan_close(toks: &Vec<Tok>, i: usize, depth: usize) -> (r: Option<usize>)
    requires
        depth <= i,
    ensures
        match r {
            Some(j) => sp_scan_close(tv(toks@), i as int, depth as nat) == Some(j as int) && i <= j
                < toks.len(),
            None => sp_scan_close(tv(toks@), i as int, depth as nat) is None,
        },
    decreases toks.len() - i,
{
    proof {
        lemma_scan_close_bounds(tv(toks@), i as int, depth as nat);
    }
    if i >= toks.len() {
        None
    } else if is_close_any(&toks[i]) {
        if depth == 0 {
            Some(i)
        } else {
            scan_close(toks, i + 1, depth - 1)
        }
    } else if is_open_any(&toks[i]) {
        scan_close(toks, i + 1, depth + 1)
    } else {
        scan_close(toks, i + 1, depth)
    }
}

/// The end of an expression run starting at `i`: the first position at
/// depth 0 holding a comma or a closing delimiter, or the end of the input.
pub open spec fn sp_expr_end(s: Seq<TokV>, i: int, depth: nat) -> int
    decreases s.len() - i,
{
    if i >= s.len() {
        i
    } else if depth == 0 && (is_punct_v(s[i], ',') || s[i] is Close) {
        i
    } else if s[i] is Open {
        sp_expr_end(s, i + 1, depth + 1)
    } else if s[i] is Close {
        sp_expr_end(s, i + 1, (depth - 1) as nat)
    } else {
        sp_expr_end(s, i + 1, depth)
    }
}

pub proof fn lemma_expr_end_bounds(s: Seq<TokV>, i: int, depth: nat)
    requires
        0 <= i <= s.len(),
    ensures
        i <= sp_expr_end(s, i, depth) <= s.len(),
    decreases s.len() - i,
{
    if i < s.len() {
        if depth == 0 && (is_punct_v(s[i], ',') || s[i] is Close) {
        } else if s[i] is Open {
            lemma_expr_end_bounds(s, i + 1, depth + 1);
        } else if s[i] is Close {
            lemma_expr_end_bounds(s, i + 1, (depth - 1) as nat);
        } else {
            lemma_expr_end_bounds(s, i + 1, depth);
        }
    }
}

/// Executable counterpart of [`sp_expr_end`].
pub fn expr_end(toks: &Vec<Tok>, i: usize, depth: usize) -> (r: usize)
    requires
        depth <= i,
        i <= toks.len(),
    ensures
        r as int == sp_expr_end(tv(toks@), i as int, depth as nat),
        i <= r <= toks.len(),
    decreases toks.len() - i,
{
    proof {
        lemma_expr_end_bounds(tv(toks@), i as int, depth as nat);
    }
    if i >= toks.len() {
        i
    } else if depth == 0 && (is_punct(&toks[i], ',') || is_close_any(&toks[i])) {
        i
    } else if is_open_any(&toks[i]) {
        expr_end(toks, i + 1, depth + 1)
    } else if is_close_any(&toks[i]) {
        expr_end(toks, i + 1, depth - 1)
    } else {
        expr_end(toks, i + 1, depth)
    }
}

/// Whether the token at `i` is a `>` that closes an angle bracket: a `>`
/// not directly preceded by the `-` of an arrow.
pub open spec fn closes_angle(s: Seq<TokV>, i: int) -> bool {
    is_punct_v(s[i], '>') && !(i > 0 && is_punct_v(s[i - 1], '-'))
}

/// Executable counterpart of [`closes_angle`].
pub fn is_angle_close(toks: &Vec<Tok>, i: usize) -> (r: bool)
    requires
        i < toks.len(),
    ensures
        r == closes_angle(tv(toks@), i as int),
{
    is_punct(&toks[i], '>') && !(i > 0 && is_punct(&toks[i - 1], '-'))
}

/// The end of a type run starting at `i`: the first position at depth 0 and
/// angle depth 0 holding `,`, `=`, `;` or a closing delimiter, or the end of
/// the input.
pub open spec fn sp_type_end(s: Seq<TokV>, i: int, depth: nat, angle: nat) -> int
    decreases s.len() - i,
{
    if i >= s.len() {
        i
    } else if depth == 0 && (s[i] is Close || (angle == 0 && (is_punct_v(s[i], ',') || is_punct_v(
        s[i],
        '=',
    ) || is_punct_v(s[i], ';')))) {
        i
    } else if s[i] is Open {
        sp_type_end(s, i + 1, depth + 1, angle)
    } else if s[i] is Close {
        sp_type_end(s, i + 1, (depth - 1) as nat, angle)
    } else if depth == 0 && is_punct_v(s[i], '<') {
        sp_type_end(s, i + 1, depth, angle + 1)
    } else if depth == 0 && angle > 0 && closes_angle(s, i) {
        sp_type_end(s, i + 1, depth, (angle - 1) as nat)
    } else {
        sp_type_end(s, i + 1, depth, angle)
    }
}

pub proof fn lemma_type_end_bounds(s: Seq<TokV>, i: int, depth: nat, angle: nat)
    requires
        0 <= i <= s.len(),
    ensures
        i <= sp_type_end(s, i, depth, angle) <= s.len(),
    decreases s.len() - i,
{
    if i < s.len() {
        if depth == 0 && (s[i] is Close || (angle == 0 && (is_punct_v(s[i], ',') || is_punct_v(
            s[i],
            '=',
        ) || is_punct_v(s[i], ';')))) {
        } else if s[i] is Open {
            lemma_type_end_bounds(s, i + 1, depth + 1, angle);
        } else if s[i] is Close {
            lemma_type_end_bounds(s, i + 1, (depth - 1) as nat, angle);
        } else if depth == 0 && is_punct_v(s[i], '<') {
            lemma_type_end_bounds(s, i + 1, depth, angle + 1);
        } else if depth == 0 && angle > 0 && closes_angle(s, i) {
            lemma_type_end_bounds(s, i + 1, depth, (angle - 1) as nat);
        } else {
            lemma_type_end_bounds(s, i + 1, depth, angle);
        }
    }
}

/// Executable counterpart of [`sp_type_end`].
pub fn type_end(toks: &Vec<Tok>, i: usize, depth: usize, angle: usize) -> (r: usize)
    requires
        depth <= i,
        angle <= i,
        i <= toks.len(),
    ensures
        r as int == sp_type_end(tv(toks@), i as int, depth as nat, angle as nat),
        i <= r <= toks.len(),
    decreases toks.len() - i,
{
    proof {
        lemma_type_end_bounds(tv(toks@), i as int, depth as nat, angle as nat);
    }
    if i >= toks.len() {
        i
    } else if depth == 0 && (is_close_any(&toks[i]) || (angle == 0 && (is_punct(&toks[i], ',')
        || is_punct(&toks[i], '=') || is_punct(&toks[i], ';')))) {
        i
    } else if is_open_any(&toks[i]) {
        type_end(toks, i + 1, depth + 1, angle)
    } else if is_close_any(&toks[i]) {
        type_end(toks, i + 1, depth - 1, angle)
    } else if depth == 0 && is_punct(&toks[i], '<') {
        type_end(toks, i + 1, depth, angle + 1)
    } else if depth == 0 && angle > 0 && is_angle_close(toks, i) {
        type_end(toks, i + 1, depth, angle - 1)
    } else {
        type_end(toks, i + 1, depth, angle)
    }
}

/// The position of the `>` matching an already-consumed `<`, scanning from
/// `i` with `angle` angle pairs open (at least the consumed one) and `depth`
/// delimiter groups open.
pub open spec fn sp_angle_close(s: Seq<TokV>, i: int, depth: nat, angle: nat) -> Option<int>
    decreases s.len() - i,
{
    if i >= s.len() {
        None
    } else if s[i] is Open {
        sp_angle_close(s, i + 1, depth + 1, angle)
    } else if s[i] is Close {
        if depth > 0 {
            sp_angle_close(s, i + 1, (depth - 1) as nat, angle)
        } else {
            None
        }
    } else if depth == 0 && is_punct_v(s[i], '<') {
        sp_angle_close(s, i + 1, depth, angle + 1)
    } else if depth == 0 && closes_angle(s, i) {
        if angle == 1 {
            Some(i)
        } else {
            sp_angle_close(s, i + 1, depth, (angle - 1) as nat)
        }
    } else {
        sp_angle_close(s, i + 1, depth, angle)
    }
}

pub proof fn lemma_angle_close_bounds(s: Seq<TokV>, i: int, depth: nat, angle: nat)
    requires
        0 <= i,
    ensures
        sp_angle_close(s, i, depth, angle) matches Some(j) ==> i <= j < s.len(),
    decreases s.len() - i,
{
    if i < s.len() {
        if s[i] is Open {
            lemma_angle_close_bounds(s, i + 1, depth + 1, angle);
        } else if s[i] is Close {
            if depth > 0 {
                lemma_angle_close_bounds(s, i + 1, (depth - 1) as nat, angle);
            }
        } else if depth == 0 && is_punct_v(s[i], '<') {
            lemma_angle_close_bounds(s, i + 1, depth, angle + 1);
        } else if depth == 0 && closes_angle(s, i) {
            if angle != 1 {
                lemma_angle_close_bounds(s, i + 1, depth, (angle - 1) as nat);
            }
        } else {
            lemma_angle_close_bounds(s, i + 1, depth, angle);
        }
    }
}

/// Executable counterpart of [`sp_angle_close`].
pub fn angle_close(toks: &Vec<Tok>, i: usize, depth: usize, angle: usize) -> (r: Option<usize>)
    requires
        depth <= i,
        1 <= angle <= i,
    ensures
        match r {
            Some(j) => sp_angle_close(tv(toks@), i as int, depth as nat, angle as nat) == Some(
                j as int,
            ) && i <= j < toks.len(),
            None => sp_angle_close(tv(toks@), i as int, depth as nat, angle as nat) is None,
        },
    decreases toks.len() - i,
{
    proof {
        lemma_angle_close_bounds(tv(toks@), i as int, depth as nat, angle as nat);
    }
    if i >= toks.len() {
        None
    } else if is_open_any(&toks[i]) {
        angle_close(toks, i + 1, depth + 1, angle)
    } else if is_close_any(&toks[i]) {
        if depth > 0 {
            angle_close(toks, i + 1, depth - 1, angle)
        } else {
            None
        }
    } else if depth == 0 && is_punct(&toks[i], '<') {
        angle_close(toks, i + 1, depth, angle + 1)
    } else if depth == 0 && is_angle_close(toks, i) {
        if angle == 1 {
            Some(i)
        } else {
            angle_close(toks, i + 1, depth, angle - 1)
        }
    } else {
        angle_close(toks, i + 1, depth, angle)
    }
}

/// Whether position `i` holds the keyword `kw` acting as a delimiter: at
/// depth 0 and angle depth 0, and not the `for` of a higher-ranked bound
/// `for<'..>`.
pub open spec fn kw_stops(s: Seq<TokV>, i: int, kw: Seq<char>) -> bool {
    s[i] == TokV::Ident(kw) && !(i + 2 < s.len() && is_punct_v(s[i + 1], '<') && is_punct_v(
        s[i + 2],
        '\'',
    ))
}

/// The end of a token run delimited by the keyword `kw`: the first position
/// at depth 0 and angle 0 holding `kw` (ignoring `for<'..>` bounds) or a
/// closing delimiter, or the end of the input.
pub open spec fn sp_kw_end(s: Seq<TokV>, i: int, depth: nat, angle: nat, kw: Seq<char>) -> int
    decreases s.len() - i,
{
    if i >= s.len() {
        i
    } else if depth == 0 && s[i] is Close {
        i
    } else if depth == 0 && angle == 0 && kw_stops(s, i, kw) {
        i
    } else if s[i] is Open {
        sp_kw_end(s, i + 1, depth + 1, angle, kw)
    } else if s[i] is Close {
        sp_kw_end(s, i + 1, (depth - 1) as nat, angle, kw)
    } else if depth == 0 && is_punct_v(s[i], '<') {
        sp_kw_end(s, i + 1, depth, angle + 1, kw)
    } else if depth == 0 && angle > 0 && closes_angle(s, i) {
        sp_kw_end(s, i + 1, depth, (angle - 1) as nat, kw)
    } else {
        sp_kw_end(s, i + 1, depth, angle, kw)
    }
}

pub proof fn lemma_kw_end_bounds(s: Seq<TokV>, i: int, depth: nat, angle: nat, kw: Seq<char>)
    requires
        0 <= i <= s.len(),
    ensures
        i <= sp_kw_end(s, i, depth, angle, kw) <= s.len(),
    decreases s.len() - i,
{
    if i < s.len() {
        if depth == 0 && s[i] is Close {
        } else if depth == 0 && angle == 0 && kw_stops(s, i, kw) {
        } else if s[i] is Open {
            lemma_kw_end_bounds(s, i + 1, depth + 1, angle, kw);
        } else if s[i] is Close {
            lemma_kw_end_bounds(s, i + 1, (depth - 1) as nat, angle, kw);
        } else if depth == 0 && is_punct_v(s[i], '<') {
            lemma_kw_end_bounds(s, i + 1, depth, angle + 1, kw);
        } else if depth == 0 && angle > 0 && closes_angle(s, i) {
            lemma_kw_end_bounds(s, i + 1, depth, (angle - 1) as nat, kw);
        } else {
            lemma_kw_end_bounds(s, i + 1, depth, angle, kw);
        }
    }
}

/// Executable counterpart of [`sp_kw_end`].
pub fn kw_end(toks: &Vec<Tok>, i: usize, depth: usize, angle: usize, kw: &str) -> (r: usize)
    requires
        depth <= i,
        angle <= i,
        i <= toks.len(),
    ensures
        r as int == sp_kw_end(tv(toks@), i as int, depth as nat, angle as nat, kw@),
        i <= r <= toks.len(),
    decreases toks.len() - i,
{
    proof {
        lemma_kw_end_bounds(tv(toks@), i as int, depth as nat, angle as nat, kw@);
    }
    if i >= toks.len() {
        i
    } else if depth == 0 && is_close_any(&toks[i]) {
        i
    } else if depth == 0 && angle == 0 && crate::token::ident_is(&toks[i], kw) && !(toks.len() - i
        > 2 && is_punct(&toks[i + 1], '<') && is_punct(&toks[i + 2], '\'')) {
        i
    } else if is_open_any(&toks[i]) {
        kw_end(toks, i + 1, depth + 1, angle, kw)
    } else if is_close_any(&toks[i]) {
        kw_end(toks, i + 1, depth - 1, angle, kw)
    } else if depth == 0 && is_punct(&toks[i], '<') {
        kw_end(toks, i + 1, depth, angle + 1, kw)
    } else if depth == 0 && angle > 0 && is_angle_close(toks, i) {
        kw_end(toks, i + 1, depth, angle - 1, kw)
    } else {
        kw_end(toks, i + 1, depth, angle, kw)
    }
}

/// The position of the opening parenthesis ending a callable path: the
/// first `(` at depth 0 and angle 0.
pub open spec fn sp_path_end(s: Seq<TokV>, i: int, depth: nat, angle: nat) -> Option<int>
    decreases s.len() - i,
{
    if i >= s.len() {
        None
    } else if depth == 0 && angle == 0 && s[i] == TokV::Open(Delim::Paren) {
        Some(i)
    } else if depth == 0 && s[i] is Close {
        None
    } else if s[i] is Open {
        sp_path_end(s, i + 1, depth + 1, angle)
    } else if s[i] is Close {
        sp_path_end(s, i + 1, (depth - 1) as nat, angle)
    } else if depth == 0 && is_punct_v(s[i], '<') {
        sp_path_end(s, i + 1, depth, angle + 1)
    } else if depth == 0 && angle > 0 && closes_angle(s, i) {
        sp_path_end(s, i + 1, depth, (angle - 1) as nat)
    } else {
        sp_path_end(s, i + 1, depth, angle)
    }
}

pub proof fn lemma_path_end_bounds(s: Seq<TokV>, i: int, depth: nat, angle: nat)
    requires
        0 <= i,
    ensures
        sp_path_end(s, i, depth, angle) matches Some(j) ==> i <= j < s.len(),
    decreases s.len() - i,
{
    if i < s.len() {
        if depth == 0 && angle == 0 && s[i] == TokV::Open(Delim::Paren) {
        } else if depth == 0 && s[i] is Close {
        } else if s[i] is Open {
            lemma_path_end_bounds(s, i + 1, depth + 1, angle);
        } else if s[i] is Close {
            lemma_path_end_bounds(s, i + 1, (depth - 1) as nat, angle);
        } else if depth == 0 && is_punct_v(s[i], '<') {
            lemma_path_end_bounds(s, i + 1, depth, angle + 1);
        } else if depth == 0 && angle > 0 && closes_angle(s, i) {
            lemma_path_end_bounds(s, i + 1, depth, (angle - 1) as nat);
        } else {
            lemma_path_end_bounds(s, i + 1, depth, angle);
        }
    }
}

/// Executable counterpart of [`sp_path_end`].
pub fn path_end(toks: &Vec<Tok>, i: usize, depth: usize, angle: usize) -> (r: Option<usize>)
    requires
        depth <= i,
        angle <= i,
    ensures
        match r {
            Some(j) => sp_path_end(tv(toks@), i as int, depth as nat, angle as nat) == Some(
                j as int,
            ) && i <= j < toks.len(),
            None => sp_path_end(tv(toks@), i as int, depth as nat, angle as nat) is None,
        },
    decreases toks.len() - i,
{
    proof {
        lemma_path_end_bounds(tv(toks@), i as int, depth as nat, angle as nat);
    }
    if i >= toks.len() {
        None
    } else if depth == 0 && angle == 0 && is_open(&toks[i], Delim::Paren) {
        Some(i)
    } else if depth == 0 && is_close_any(&toks[i]) {
        None
    } else if is_open_any(&toks[i]) {
        path_end(toks, i + 1, depth + 1, angle)
    } else if is_close_any(&toks[i]) {
        path_end(toks, i + 1, depth - 1, angle)
    } else if depth == 0 && is_punct(&toks[i], '<') {
        path_end(toks, i + 1, depth, angle + 1)
    } else if depth == 0 && angle > 0 && is_angle_close(toks, i) {
        path_end(toks, i + 1, depth, angle - 1)
    } else {
        path_end(toks, i + 1, depth, angle)
    }
}

/// The index of the first `:` of the last `::` separator at depth 0 and
/// angle 0 in `s` from `i` on; `best` carries the last one already seen.
pub open spec fn sp_last_sep(s: Seq<TokV>, i: int, depth: nat, angle: nat, best: Option<int>)
    -> Option<int>
    decreases s.len() - i,
{
    if i >= s.len() {
        best
    } else if depth == 0 && angle == 0 && i + 1 < s.len() && is_punct_v(s[i], ':') && is_punct_v(
        s[i + 1],
        ':',
    ) {
        sp_last_sep(s, i + 2, depth, angle, Some(i))
    } else if s[i] is Open {
        sp_last_sep(s, i + 1, depth + 1, angle, best)
    } else if s[i] is Close {
        sp_last_sep(s, i + 1, if depth > 0 { (depth - 1) as nat } else { 0 }, angle, best)
    } else if depth == 0 && is_punct_v(s[i], '<') {
        sp_last_sep(s, i + 1, depth, angle + 1, best)
    } else if depth == 0 && angle > 0 && closes_angle(s, i) {
        sp_last_sep(s, i + 1, depth, (angle - 1) as nat, best)
    } else {
        sp_last_sep(s, i + 1, depth, angle, best)
    }
}

pub proof fn lemma_last_sep_bounds(s: Seq<TokV>, i: int, depth: nat, angle: nat, best: Option<int>)
    requires
        0 <= i,
        best matches Some(b) ==> 0 <= b && b + 1 < s.len(),
    ensures
        sp_last_sep(s, i, depth, angle, best) matches Some(j) ==> 0 <= j && j + 1 < s.len(),
    decreases s.len() - i,
{
    if i < s.len() {
        if depth == 0 && angle == 0 && i + 1 < s.len() && is_punct_v(s[i], ':') && is_punct_v(
            s[i + 1],
            ':',
        ) {
            lemma_last_sep_bounds(s, i + 2, depth, angle, Some(i));
        } else if s[i] is Open {
            lemma_last_sep_bounds(s, i + 1, depth + 1, angle, best);
        } else if s[i] is Close {
            lemma_last_sep_bounds(
                s,
                i + 1,
                if depth > 0 { (depth - 1) as nat } else { 0 },
                angle,
                best,
            );
        } else if depth == 0 && is_punct_v(s[i], '<') {
            lemma_last_sep_bounds(s, i + 1, depth, angle + 1, best);
        } else if depth == 0 && angle > 0 && closes_angle(s, i) {
            lemma_last_sep_bounds(s, i + 1, depth, (angle - 1) as nat, best);
        } else {
            lemma_last_sep_bounds(s, i + 1, depth, angle, best);
        }
    }
}

/// Executable counterpart of [`sp_last_sep`].
pub fn last_sep(toks: &Vec<Tok>, i: usize, depth: usize, angle: usize, best: Option<usize>) -> (r:
    Option<usize>)
    requires
        depth <= i,
        angle <= i,
        best matches Some(b) ==> b + 1 < toks.len(),
    ensures
        match r {
            Some(j) => sp_last_sep(
                tv(toks@),
                i as int,
                depth as nat,
                angle as nat,
                match best {
                    Some(b) => Some(b as int),
                    None => None,
                },
            ) == Some(j as int) && j + 1 < toks.len(),
            None => sp_last_sep(
                tv(toks@),
                i as int,
                depth as nat,
                angle as nat,
                match best {
                    Some(b) => Some(b as int),
                    None => None,
                },
            ) is None,
        },
    decreases toks.len() - i,
{
    proof {
        lemma_last_sep_bounds(
            tv(toks@),
            i as int,
            depth as nat,
            angle as nat,
            match best {
                Some(b) => Some(b as int),
                None => None,
            },
        );
    }
    if i >= toks.len() {
        best
    } else if depth == 0 && angle == 0 && i + 1 < toks.len() && is_punct(&toks[i], ':') && is_punct(
        &toks[i + 1],
        ':',
    ) {
        last_sep(toks, i + 2, depth, angle, Some(i))
    } else if is_open_any(&toks[i]) {
        last_sep(toks, i + 1, depth + 1, angle, best)
    } else if is_close_any(&toks[i]) {
        last_sep(toks, i + 1, if depth > 0 { depth - 1 } else { 0 }, angle, best)
    } else if depth == 0 && is_punct(&toks[i], '<') {
        last_sep(toks, i + 1, depth, angle + 1, best)
    } else if depth == 0 && angle > 0 && is_angle_close(toks, i) {
        last_sep(toks, i + 1, depth, angle - 1, best)
    } else {
        last_sep(toks, i + 1, depth, angle, best)
    }
}

/// The position of the first identifier `as` at depth 0 and angle 0 in
/// `[i, end)`.
pub open spec fn sp_as_pos(s: Seq<TokV>, i: int, end: int, depth: nat, angle: nat) -> Option<int>
    decreases end - i,
{
    if i >= end {
        None
    } else if depth == 0 && angle == 0 && s[i] == TokV::Ident("as"@) {
        Some(i)
    } else if s[i] is Open {
        sp_as_pos(s, i + 1, end, depth + 1, angle)
    } else if s[i] is Close {
        sp_as_pos(s, i + 1, end, if depth > 0 { (depth - 1) as nat } else { 0 }, angle)
    } else if depth == 0 && is_punct_v(s[i], '<') {
        sp_as_pos(s, i + 1, end, depth, angle + 1)
    } else if depth == 0 && angle > 0 && closes_angle(s, i) {
        sp_as_pos(s, i + 1, end, depth, (angle - 1) as nat)
    } else {
        sp_as_pos(s, i + 1, end, depth, angle)
    }
}

pub proof fn lemma_as_pos_bounds(s: Seq<TokV>, i: int, end: int, depth: nat, angle: nat)
    requires
        0 <= i,
    ensures
        sp_as_pos(s, i, end, depth, angle) matches Some(j) ==> i <= j < end,
    decreases end - i,
{
    if i < end {
        if depth == 0 && angle == 0 && s[i] == TokV::Ident("as"@) {
        } else if s[i] is Open {
            lemma_as_pos_bounds(s, i + 1, end, depth + 1, angle);
        } else if s[i] is Close {
            lemma_as_pos_bounds(s, i + 1, end, if depth > 0 { (depth - 1) as nat } else { 0 },
                angle);
        } else if depth == 0 && is_punct_v(s[i], '<') {
            lemma_as_pos_bounds(s, i + 1, end, depth, angle + 1);
        } else if depth == 0 && angle > 0 && closes_angle(s, i) {
            lemma_as_pos_bounds(s, i + 1, end, depth, (angle - 1) as nat);
        } else {
            lemma_as_pos_bounds(s, i + 1, end, depth, angle);
        }
    }
}

/// Executable counterpart of [`sp_as_pos`].
pub fn as_pos(toks: &Vec<Tok>, i: usize, end: usize, depth: usize, angle: usize) -> (r: Option<
    usize,
>)
    requires
        depth <= i,
        angle <= i,
        end <= toks.len(),
    ensures
        match r {
            Some(j) => sp_as_pos(tv(toks@), i as int, end as int, depth as nat, angle as nat)
                == Some(j as int) && i <= j < end,
            None => sp_as_pos(tv(toks@), i as int, end as int, depth as nat, angle as nat) is None,
        },
    decreases end - i,
{
    proof {
        lemma_as_pos_bounds(tv(toks@), i as int, end as int, depth as nat, angle as nat);
    }
    if i >= end {
        None
    } else if depth == 0 && angle == 0 && crate::token::ident_is(&toks[i], "as") {
        Some(i)
    } else if is_open_any(&toks[i]) {
        as_pos(toks, i + 1, end, depth + 1, angle)
    } else if is_close_any(&toks[i]) {
        as_pos(toks, i + 1, end, if depth > 0 { depth - 1 } else { 0 }, angle)
    } else if depth == 0 && is_punct(&toks[i], '<') {
        as_pos(toks, i + 1, end, depth, angle + 1)
    } else if depth == 0 && angle > 0 && is_angle_close(toks, i) {
        as_pos(toks, i + 1, end, depth, angle - 1)
    } else {
        as_pos(toks, i + 1, end, depth, angle)
    }
}

} // verus!
