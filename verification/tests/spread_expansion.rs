use spread_syntax::diag::DiagKind;
use spread_syntax::spread::spread;
use spread_syntax::token::{Delim, Tok};

fn id(s: &str) -> Tok {
    Tok::Ident(s.to_string())
}

fn lit(s: &str) -> Tok {
    Tok::Lit(s.to_string())
}

fn p(c: char) -> Tok {
    Tok::Punct(c, false)
}

fn pj(c: char) -> Tok {
    Tok::Punct(c, true)
}

fn ob() -> Tok {
    Tok::Open(Delim::Brace)
}

fn cb() -> Tok {
    Tok::Close(Delim::Brace)
}

fn count_ident(out: &[Tok], name: &str) -> usize {
    out.iter()
        .filter(|t| matches!(t, Tok::Ident(s) if s == name))
        .count()
}

#[test]
fn spread_plain_fields_in_order() {
    // Foo { a, b: 5, }  =>  { Foo { a: a, b: 5 } }
    let input = vec![
        id("Foo"),
        ob(),
        id("a"),
        p(','),
        id("b"),
        p(':'),
        lit("5"),
        p(','),
        cb(),
    ];
    let out = spread(&input).unwrap();
    let expected = vec![
        ob(),
        id("Foo"),
        ob(),
        id("a"),
        p(':'),
        id("a"),
        p(','),
        id("b"),
        p(':'),
        lit("5"),
        cb(),
        cb(),
    ];
    assert_eq!(out, expected);
}

#[test]
fn spread_list_binds_source_once() {
    // Foo { { x, &y } in source, }
    // => { let _0_x_y = source; Foo { x: _0_x_y.x, y: &_0_x_y.y } }
    let input = vec![
        id("Foo"),
        ob(),
        ob(),
        id("x"),
        p(','),
        p('&'),
        id("y"),
        cb(),
        id("in"),
        id("source"),
        p(','),
        cb(),
    ];
    let out = spread(&input).unwrap();
    let expected = vec![
        ob(),
        id("let"),
        id("_0_x_y"),
        p('='),
        id("source"),
        p(';'),
        id("Foo"),
        ob(),
        id("x"),
        p(':'),
        id("_0_x_y"),
        p('.'),
        id("x"),
        p(','),
        id("y"),
        p(':'),
        p('&'),
        id("_0_x_y"),
        p('.'),
        id("y"),
        cb(),
        cb(),
    ];
    assert_eq!(out, expected);
    // the source expression occurs exactly once, in the binding
    assert_eq!(count_ident(&out, "source"), 1);
}

#[test]
fn spread_two_lists_get_distinct_binders() {
    // Foo { { a } in s1, { a } in s2, }
    let input = vec![
        id("Foo"),
        ob(),
        ob(),
        id("a"),
        cb(),
        id("in"),
        id("s1"),
        p(','),
        ob(),
        id("a"),
        cb(),
        id("in"),
        id("s2"),
        p(','),
        cb(),
    ];
    let out = spread(&input).unwrap();
    assert_eq!(count_ident(&out, "_0_a"), 2);
    assert_eq!(count_ident(&out, "_1_a"), 2);
}

#[test]
fn spread_final_spread_is_kept_last() {
    // Foo { a, ..rest }  =>  { Foo { a: a, ..rest } }
    let input = vec![
        id("Foo"),
        ob(),
        id("a"),
        p(','),
        pj('.'),
        p('.'),
        id("rest"),
        cb(),
    ];
    let out = spread(&input).unwrap();
    let expected = vec![
        ob(),
        id("Foo"),
        ob(),
        id("a"),
        p(':'),
        id("a"),
        p(','),
        pj('.'),
        p('.'),
        id("rest"),
        cb(),
        cb(),
    ];
    assert_eq!(out, expected);
}

#[test]
fn spread_all_modifiers_render() {
    // Foo { &r, &mut m, >i, +c, +>ci, [f] u, [f] &v, [f] &mut w, }
    let input = vec![
        id("Foo"),
        ob(),
        p('&'),
        id("r"),
        p(','),
        p('&'),
        id("mut"),
        id("m"),
        p(','),
        p('>'),
        id("i"),
        p(','),
        p('+'),
        id("c"),
        p(','),
        p('+'),
        p('>'),
        id("ci"),
        p(','),
        Tok::Open(Delim::Bracket),
        id("f"),
        Tok::Close(Delim::Bracket),
        id("u"),
        p(','),
        Tok::Open(Delim::Bracket),
        id("f"),
        Tok::Close(Delim::Bracket),
        p('&'),
        id("v"),
        p(','),
        Tok::Open(Delim::Bracket),
        id("f"),
        Tok::Close(Delim::Bracket),
        p('&'),
        id("mut"),
        id("w"),
        p(','),
        cb(),
    ];
    let out = spread(&input).unwrap();
    let expected = vec![
        ob(),
        id("Foo"),
        ob(),
        // r: &r
        id("r"),
        p(':'),
        p('&'),
        id("r"),
        p(','),
        // m: &mut m
        id("m"),
        p(':'),
        p('&'),
        id("mut"),
        id("m"),
        p(','),
        // i: i.into()
        id("i"),
        p(':'),
        id("i"),
        p('.'),
        id("into"),
        Tok::Open(Delim::Paren),
        Tok::Close(Delim::Paren),
        p(','),
        // c: c.clone()
        id("c"),
        p(':'),
        id("c"),
        p('.'),
        id("clone"),
        Tok::Open(Delim::Paren),
        Tok::Close(Delim::Paren),
        p(','),
        // ci: ci.clone().into()  -- clone first, then into
        id("ci"),
        p(':'),
        id("ci"),
        p('.'),
        id("clone"),
        Tok::Open(Delim::Paren),
        Tok::Close(Delim::Paren),
        p('.'),
        id("into"),
        Tok::Open(Delim::Paren),
        Tok::Close(Delim::Paren),
        p(','),
        // u: f(u)
        id("u"),
        p(':'),
        id("f"),
        Tok::Open(Delim::Paren),
        id("u"),
        Tok::Close(Delim::Paren),
        p(','),
        // v: f(&v)
        id("v"),
        p(':'),
        id("f"),
        Tok::Open(Delim::Paren),
        p('&'),
        id("v"),
        Tok::Close(Delim::Paren),
        p(','),
        // w: f(&mut w)
        id("w"),
        p(':'),
        id("f"),
        Tok::Open(Delim::Paren),
        p('&'),
        id("mut"),
        id("w"),
        Tok::Close(Delim::Paren),
        cb(),
        cb(),
    ];
    assert_eq!(out, expected);
}

#[test]
fn spread_clone_into_never_into_clone() {
    // +>x must render `.clone()` before `.into()`
    let input = vec![id("Foo"), ob(), p('+'), p('>'), id("x"), cb()];
    let out = spread(&input).unwrap();
    let clone_pos = out
        .iter()
        .position(|t| matches!(t, Tok::Ident(s) if s == "clone"))
        .unwrap();
    let into_pos = out
        .iter()
        .position(|t| matches!(t, Tok::Ident(s) if s == "into"))
        .unwrap();
    assert!(clone_pos < into_pos);
}

#[test]
fn spread_duplicate_field_names_pass_through() {
    // duplicate names are not rejected here; the duplicate-field error
    // surfaces from the generated struct literal downstream
    let input = vec![id("Foo"), ob(), id("a"), p(','), id("a"), cb()];
    let out = spread(&input).unwrap();
    let expected = vec![
        ob(),
        id("Foo"),
        ob(),
        id("a"),
        p(':'),
        id("a"),
        p(','),
        id("a"),
        p(':'),
        id("a"),
        cb(),
        cb(),
    ];
    assert_eq!(out, expected);
}

#[test]
fn spread_binder_positions_reach_two_digits() {
    // eleven spread-lists: the last binder carries the two-digit position
    let mut input = vec![id("Foo"), ob()];
    for _ in 0..11 {
        input.push(ob());
        input.push(id("a"));
        input.push(cb());
        input.push(id("in"));
        input.push(id("s"));
        input.push(p(','));
    }
    input.push(cb());
    let out = spread(&input).unwrap();
    assert_eq!(count_ident(&out, "_0_a"), 2);
    assert_eq!(count_ident(&out, "_10_a"), 2);
}

#[test]
fn spread_rejects_leftover_tokens() {
    let input = vec![id("Foo"), ob(), id("a"), cb(), id("junk")];
    let err = spread(&input).unwrap_err();
    assert_eq!(err.kind, DiagKind::ExpectedEnd);
    assert_eq!(err.pos, 4);
}
