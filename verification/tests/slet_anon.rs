use spread_syntax::anon::anon;
use spread_syntax::diag::DiagKind;
use spread_syntax::slet::slet;
use spread_syntax::token::{Delim, Tok};

fn id(s: &str) -> Tok {
    Tok::Ident(s.to_string())
}

fn lit(s: &str) -> Tok {
    Tok::Lit(s.to_string())
}

fn p(c: char) -> Tok {
    Tok::Punct(c, false)
}

fn ob() -> Tok {
    Tok::Open(Delim::Brace)
}

fn cb() -> Tok {
    Tok::Close(Delim::Brace)
}

fn op() -> Tok {
    Tok::Open(Delim::Paren)
}

fn cp() -> Tok {
    Tok::Close(Delim::Paren)
}

#[test]
fn slet_mut_convert_and_duplicate() {
    // mut >x, +y,
    // => let mut x = x.into(); let y = y.clone();
    let input = vec![
        id("mut"),
        p('>'),
        id("x"),
        p(','),
        p('+'),
        id("y"),
        p(','),
    ];
    let out = slet(&input).unwrap();
    let expected = vec![
        id("let"),
        id("mut"),
        id("x"),
        p('='),
        id("x"),
        p('.'),
        id("into"),
        op(),
        cp(),
        p(';'),
        id("let"),
        id("y"),
        p('='),
        id("y"),
        p('.'),
        id("clone"),
        op(),
        cp(),
        p(';'),
    ];
    assert_eq!(out, expected);
}

#[test]
fn slet_spread_list_single_tuple_binding() {
    // { a, mut b } in src,
    // => let ( a , mut b , ) = { let __source = src ; ( __source.a , __source.b , ) } ;
    let input = vec![
        ob(),
        id("a"),
        p(','),
        id("mut"),
        id("b"),
        cb(),
        id("in"),
        id("src"),
        p(','),
    ];
    let out = slet(&input).unwrap();
    let expected = vec![
        id("let"),
        op(),
        id("a"),
        p(','),
        id("mut"),
        id("b"),
        p(','),
        cp(),
        p('='),
        ob(),
        id("let"),
        id("__source"),
        p('='),
        id("src"),
        p(';'),
        op(),
        id("__source"),
        p('.'),
        id("a"),
        p(','),
        id("__source"),
        p('.'),
        id("b"),
        p(','),
        cp(),
        cb(),
        p(';'),
    ];
    assert_eq!(out, expected);
    let count = out
        .iter()
        .filter(|t| matches!(t, Tok::Ident(s) if s == "src"))
        .count();
    assert_eq!(count, 1);
}

#[test]
fn slet_value_expression() {
    // v: compute(1),
    let input = vec![
        id("v"),
        p(':'),
        id("compute"),
        op(),
        lit("1"),
        cp(),
        p(','),
    ];
    let out = slet(&input).unwrap();
    let expected = vec![
        id("let"),
        id("v"),
        p('='),
        id("compute"),
        op(),
        lit("1"),
        cp(),
        p(';'),
    ];
    assert_eq!(out, expected);
}

#[test]
fn slet_rejects_empty_input() {
    let input: Vec<Tok> = vec![];
    let err = slet(&input).unwrap_err();
    assert_eq!(err.kind, DiagKind::EmptyFields);
}

#[test]
fn anon_declares_one_parameter_per_field() {
    // a, b: 5,
    let input = vec![id("a"), p(','), id("b"), p(':'), lit("5"), p(',')];
    let out = anon(&input).unwrap();
    let expected = vec![
        ob(),
        p('#'),
        Tok::Open(Delim::Bracket),
        id("derive"),
        op(),
        id("Copy"),
        p(','),
        id("Clone"),
        p(','),
        id("Debug"),
        p(','),
        id("PartialEq"),
        p(','),
        id("Eq"),
        cp(),
        Tok::Close(Delim::Bracket),
        id("struct"),
        id("Anon"),
        p('<'),
        id("T0"),
        p(','),
        id("T1"),
        p('>'),
        ob(),
        id("a"),
        p(':'),
        id("T0"),
        p(','),
        id("b"),
        p(':'),
        id("T1"),
        cb(),
        id("Anon"),
        ob(),
        id("a"),
        p(':'),
        id("a"),
        p(','),
        id("b"),
        p(':'),
        lit("5"),
        cb(),
        cb(),
    ];
    assert_eq!(out, expected);
}

#[test]
fn anon_flattens_spread_list_names() {
    // x, { y, z } in s,
    let input = vec![
        id("x"),
        p(','),
        ob(),
        id("y"),
        p(','),
        id("z"),
        cb(),
        id("in"),
        id("s"),
        p(','),
    ];
    let out = anon(&input).unwrap();
    for name in ["T0", "T1", "T2"] {
        assert!(out.iter().any(|t| matches!(t, Tok::Ident(s) if s == name)));
    }
    assert!(!out.iter().any(|t| matches!(t, Tok::Ident(s) if s == "T3")));
}

#[test]
fn anon_forwards_inner_attributes() {
    // #![derive(Hash)] a,
    let input = vec![
        p('#'),
        p('!'),
        Tok::Open(Delim::Bracket),
        id("derive"),
        op(),
        id("Hash"),
        cp(),
        Tok::Close(Delim::Bracket),
        id("a"),
        p(','),
    ];
    let out = anon(&input).unwrap();
    assert!(out.iter().any(|t| matches!(t, Tok::Ident(s) if s == "Hash")));
    // the automatic derive is still present
    assert!(out.iter().any(|t| matches!(t, Tok::Ident(s) if s == "PartialEq")));
}

#[test]
fn anon_rejects_final_spread() {
    let input = vec![id("a"), p(','), Tok::Punct('.', true), p('.'), id("r")];
    let err = anon(&input).unwrap_err();
    assert_eq!(err.kind, DiagKind::FinalSpreadNotAllowed);
    assert_eq!(err.pos, 2);
}

#[test]
fn anon_rejects_mut() {
    let input = vec![id("mut"), id("a"), p(',')];
    let err = anon(&input).unwrap_err();
    assert_eq!(err.kind, DiagKind::MutNotAllowed);
    assert_eq!(err.pos, 0);
}
