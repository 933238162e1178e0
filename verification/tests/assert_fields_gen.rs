use spread_syntax::assert_fields_eq::assert_fields_eq;
use spread_syntax::token::{Delim, Tok};

fn id(s: &str) -> Tok {
    Tok::Ident(s.to_string())
}

fn lit(s: &str) -> Tok {
    Tok::Lit(s.to_string())
}

fn p(c: char) -> Tok {
    Tok::Punct(c, false)
}

fn pj(c: char) -> Tok {
    Tok::Punct(c, true)
}

fn ob() -> Tok {
    Tok::Open(Delim::Brace)
}

fn cb() -> Tok {
    Tok::Close(Delim::Brace)
}

fn op() -> Tok {
    Tok::Open(Delim::Paren)
}

fn cp() -> Tok {
    Tok::Close(Delim::Paren)
}

fn obk() -> Tok {
    Tok::Open(Delim::Bracket)
}

fn cbk() -> Tok {
    Tok::Close(Delim::Bracket)
}

#[test]
fn assertion_compares_only_listed_fields() {
    // left , right , [ a , b ]
    let input = vec![
        id("left"),
        p(','),
        id("right"),
        p(','),
        obk(),
        id("a"),
        p(','),
        id("b"),
        cbk(),
    ];
    let out = assert_fields_eq(&input).unwrap();
    let expected = vec![
        ob(),
        // #[allow(non_camel_case_types)]
        p('#'),
        obk(),
        id("allow"),
        op(),
        id("non_camel_case_types"),
        cp(),
        cbk(),
        // #[derive(Debug, PartialEq, Eq)]
        p('#'),
        obk(),
        id("derive"),
        op(),
        id("Debug"),
        p(','),
        id("PartialEq"),
        p(','),
        id("Eq"),
        cp(),
        cbk(),
        // struct Fields < 'a , a , b , > { a : & 'a a , b : & 'a b , }
        id("struct"),
        id("Fields"),
        p('<'),
        pj('\''),
        id("a"),
        p(','),
        id("a"),
        p(','),
        id("b"),
        p(','),
        p('>'),
        ob(),
        id("a"),
        p(':'),
        p('&'),
        pj('\''),
        id("a"),
        id("a"),
        p(','),
        id("b"),
        p(':'),
        p('&'),
        pj('\''),
        id("a"),
        id("b"),
        p(','),
        cb(),
        // let left = & left ;
        id("let"),
        id("left"),
        p('='),
        p('&'),
        id("left"),
        p(';'),
        // let left = Fields { a : & ( left . a ) , b : & ( left . b ) , } ;
        id("let"),
        id("left"),
        p('='),
        id("Fields"),
        ob(),
        id("a"),
        p(':'),
        p('&'),
        op(),
        id("left"),
        p('.'),
        id("a"),
        cp(),
        p(','),
        id("b"),
        p(':'),
        p('&'),
        op(),
        id("left"),
        p('.'),
        id("b"),
        cp(),
        p(','),
        cb(),
        p(';'),
        // let right = & right ;
        id("let"),
        id("right"),
        p('='),
        p('&'),
        id("right"),
        p(';'),
        // let right = Fields { ... } ;
        id("let"),
        id("right"),
        p('='),
        id("Fields"),
        ob(),
        id("a"),
        p(':'),
        p('&'),
        op(),
        id("right"),
        p('.'),
        id("a"),
        cp(),
        p(','),
        id("b"),
        p(':'),
        p('&'),
        op(),
        id("right"),
        p('.'),
        id("b"),
        cp(),
        p(','),
        cb(),
        p(';'),
        // assert_eq ! ( left , right ) ;
        id("assert_eq"),
        p('!'),
        op(),
        id("left"),
        p(','),
        id("right"),
        cp(),
        p(';'),
        cb(),
    ];
    assert_eq!(out, expected);
}

#[test]
fn assertion_never_mentions_unlisted_fields() {
    // values with other fields: only the listed names may appear as
    // projections in the output
    let input = vec![
        id("one"),
        p(','),
        id("two"),
        p(','),
        obk(),
        id("a"),
        cbk(),
    ];
    let out = assert_fields_eq(&input).unwrap();
    // every projection `. name` projects the listed field
    for w in out.windows(2) {
        if matches!(&w[0], Tok::Punct('.', _)) {
            assert!(matches!(&w[1], Tok::Ident(s) if s == "a"));
        }
    }
}

#[test]
fn assertion_forwards_extra_arguments() {
    // l , r , [ a ] , "msg"
    let input = vec![
        id("l"),
        p(','),
        id("r"),
        p(','),
        obk(),
        id("a"),
        cbk(),
        p(','),
        lit("\"msg\""),
    ];
    let out = assert_fields_eq(&input).unwrap();
    let tail: Vec<Tok> = vec![
        id("assert_eq"),
        p('!'),
        op(),
        id("left"),
        p(','),
        id("right"),
        p(','),
        lit("\"msg\""),
        cp(),
        p(';'),
        cb(),
    ];
    assert!(out.len() >= tail.len());
    assert_eq!(&out[out.len() - tail.len()..], &tail[..]);
}

#[test]
fn assertion_anonymous_form_binds_right() {
    // ex , { b : 5 , }
    let input = vec![
        id("ex"),
        p(','),
        ob(),
        id("b"),
        p(':'),
        lit("5"),
        p(','),
        cb(),
    ];
    let out = assert_fields_eq(&input).unwrap();
    // starts by binding the anonymous value under `right`
    assert_eq!(&out[0..4], &[ob(), id("let"), id("right"), p('=')]);
    // the anonymous type declaration is inside
    assert!(out.iter().any(|t| matches!(t, Tok::Ident(s) if s == "Anon")));
    // and the comparison wrapper follows
    assert!(out.iter().any(|t| matches!(t, Tok::Ident(s) if s == "Fields")));
    assert!(out.iter().any(|t| matches!(t, Tok::Ident(s) if s == "assert_eq")));
}

#[test]
fn assertion_list_trailing_comma_in_fields() {
    // l , r , [ a , ]
    let input = vec![
        id("l"),
        p(','),
        id("r"),
        p(','),
        obk(),
        id("a"),
        p(','),
        cbk(),
    ];
    assert!(assert_fields_eq(&input).is_ok());
}
