use spread_syntax::assert_fields_eq::assert_fields_eq;
use spread_syntax::diag::DiagKind;
use spread_syntax::fn_struct::fn_struct;
use spread_syntax::slet::slet;
use spread_syntax::spread::spread;
use spread_syntax::token::{Delim, Tok};

fn id(s: &str) -> Tok {
    Tok::Ident(s.to_string())
}

fn lit(s: &str) -> Tok {
    Tok::Lit(s.to_string())
}

fn p(c: char) -> Tok {
    Tok::Punct(c, false)
}

fn pj(c: char) -> Tok {
    Tok::Punct(c, true)
}

fn ob() -> Tok {
    Tok::Open(Delim::Brace)
}

fn cb() -> Tok {
    Tok::Close(Delim::Brace)
}

fn op() -> Tok {
    Tok::Open(Delim::Paren)
}

fn cp() -> Tok {
    Tok::Close(Delim::Paren)
}

fn obk() -> Tok {
    Tok::Open(Delim::Bracket)
}

fn cbk() -> Tok {
    Tok::Close(Delim::Bracket)
}

#[test]
fn err_final_spread_before_another_item() {
    // Foo { ..r, b }
    let input = vec![
        id("Foo"),
        ob(),
        pj('.'),
        p('.'),
        id("r"),
        p(','),
        id("b"),
        cb(),
    ];
    let err = spread(&input).unwrap_err();
    assert_eq!(err.kind, DiagKind::FinalSpreadNotLast);
    assert_eq!(err.pos, 2);
}

#[test]
fn err_final_spread_twice() {
    // Foo { ..r, ..s }
    let input = vec![
        id("Foo"),
        ob(),
        pj('.'),
        p('.'),
        id("r"),
        p(','),
        pj('.'),
        p('.'),
        id("s"),
        cb(),
    ];
    let err = spread(&input).unwrap_err();
    assert_eq!(err.kind, DiagKind::FinalSpreadNotLast);
}

#[test]
fn err_trailing_comma_after_final_spread() {
    // Foo { ..r, }
    let input = vec![id("Foo"), ob(), pj('.'), p('.'), id("r"), p(','), cb()];
    let err = spread(&input).unwrap_err();
    assert_eq!(err.kind, DiagKind::TrailingCommaAfterFinalSpread);
    assert_eq!(err.pos, 5);
}

#[test]
fn err_empty_spread_braces() {
    let input = vec![id("Foo"), ob(), cb()];
    let err = spread(&input).unwrap_err();
    assert_eq!(err.kind, DiagKind::EmptyFields);
    assert_eq!(err.pos, 1);
}

#[test]
fn err_mut_in_spread() {
    let input = vec![id("Foo"), ob(), id("mut"), id("a"), cb()];
    let err = spread(&input).unwrap_err();
    assert_eq!(err.kind, DiagKind::MutNotAllowed);
    assert_eq!(err.pos, 2);
}

#[test]
fn err_mut_inside_spread_list() {
    // Foo { { mut a } in s }
    let input = vec![
        id("Foo"),
        ob(),
        ob(),
        id("mut"),
        id("a"),
        cb(),
        id("in"),
        id("s"),
        cb(),
    ];
    let err = spread(&input).unwrap_err();
    assert_eq!(err.kind, DiagKind::MutNotAllowed);
    assert_eq!(err.pos, 3);
}

#[test]
fn err_field_start_token() {
    // Foo { * }
    let input = vec![id("Foo"), ob(), p('*'), cb()];
    let err = spread(&input).unwrap_err();
    assert_eq!(err.kind, DiagKind::ExpectedField);
    assert_eq!(err.pos, 2);
}

#[test]
fn err_amp_without_name() {
    // Foo { & }
    let input = vec![id("Foo"), ob(), p('&'), cb()];
    let err = spread(&input).unwrap_err();
    assert_eq!(err.kind, DiagKind::ExpectedName);
    assert_eq!(err.pos, 3);
}

#[test]
fn err_empty_custom_path() {
    // Foo { [] x }
    let input = vec![id("Foo"), ob(), obk(), cbk(), id("x"), cb()];
    let err = spread(&input).unwrap_err();
    assert_eq!(err.kind, DiagKind::ExpectedPath);
    assert_eq!(err.pos, 3);
}

#[test]
fn err_missing_value_after_colon() {
    // Foo { a: }
    let input = vec![id("Foo"), ob(), id("a"), p(':'), cb()];
    let err = spread(&input).unwrap_err();
    assert_eq!(err.kind, DiagKind::ExpectedExpr);
    assert_eq!(err.pos, 4);
}

#[test]
fn err_path_separator_is_not_a_value() {
    // Foo { a::b } — the joint colon begins a path, not a value
    let input = vec![id("Foo"), ob(), id("a"), pj(':'), p(':'), id("b"), cb()];
    let err = spread(&input).unwrap_err();
    assert_eq!(err.kind, DiagKind::ExpectedComma);
    assert_eq!(err.pos, 3);
}

#[test]
fn err_missing_comma_between_fields() {
    let input = vec![id("Foo"), ob(), id("a"), id("b"), cb()];
    let err = spread(&input).unwrap_err();
    assert_eq!(err.kind, DiagKind::ExpectedComma);
    assert_eq!(err.pos, 3);
}

#[test]
fn err_missing_in_after_list() {
    // Foo { { a } s }
    let input = vec![id("Foo"), ob(), ob(), id("a"), cb(), id("s"), cb()];
    let err = spread(&input).unwrap_err();
    assert_eq!(err.kind, DiagKind::ExpectedIn);
    assert_eq!(err.pos, 5);
}

#[test]
fn err_empty_spread_list() {
    // Foo { { } in s }
    let input = vec![id("Foo"), ob(), ob(), cb(), id("in"), id("s"), cb()];
    let err = spread(&input).unwrap_err();
    assert_eq!(err.kind, DiagKind::EmptyFields);
    assert_eq!(err.pos, 2);
}

#[test]
fn err_missing_struct_name() {
    let input = vec![ob(), id("a"), cb()];
    let err = spread(&input).unwrap_err();
    assert_eq!(err.kind, DiagKind::ExpectedName);
    assert_eq!(err.pos, 0);
}

#[test]
fn err_missing_braces() {
    let input = vec![id("Foo"), id("a")];
    let err = spread(&input).unwrap_err();
    assert_eq!(err.kind, DiagKind::ExpectedBrace);
    assert_eq!(err.pos, 1);
}

#[test]
fn err_unclosed_braces() {
    let input = vec![id("Foo"), ob(), id("a")];
    let err = spread(&input).unwrap_err();
    assert_eq!(err.kind, DiagKind::UnclosedGroup);
    assert_eq!(err.pos, 1);
}

#[test]
fn err_final_spread_in_binding_list() {
    // ..r
    let input = vec![pj('.'), p('.'), id("r")];
    let err = slet(&input).unwrap_err();
    assert_eq!(err.kind, DiagKind::FinalSpreadNotAllowed);
    assert_eq!(err.pos, 0);
}

#[test]
fn err_self_with_value_modifier() {
    // N for fn a::b ( +self )
    let input = vec![
        id("N"),
        id("for"),
        id("fn"),
        id("a"),
        pj(':'),
        p(':'),
        id("b"),
        op(),
        p('+'),
        id("self"),
        cp(),
    ];
    let err = fn_struct(&input).unwrap_err();
    assert_eq!(err.kind, DiagKind::SelfModifierNotAllowed);
}

#[test]
fn err_self_not_first() {
    // N for fn a::b ( x : u32 , self )
    let input = vec![
        id("N"),
        id("for"),
        id("fn"),
        id("a"),
        pj(':'),
        p(':'),
        id("b"),
        op(),
        id("x"),
        p(':'),
        id("u32"),
        p(','),
        id("self"),
        cp(),
    ];
    let err = fn_struct(&input).unwrap_err();
    assert_eq!(err.kind, DiagKind::SelfNotFirst);
}

#[test]
fn err_mixed_defaults() {
    // N for fn a::b ( x : u32 = 1 , y : u32 )
    let input = vec![
        id("N"),
        id("for"),
        id("fn"),
        id("a"),
        pj(':'),
        p(':'),
        id("b"),
        op(),
        id("x"),
        p(':'),
        id("u32"),
        p('='),
        lit("1"),
        p(','),
        id("y"),
        p(':'),
        id("u32"),
        cp(),
    ];
    let err = fn_struct(&input).unwrap_err();
    assert_eq!(err.kind, DiagKind::MixedDefaults);
}

#[test]
fn err_receiver_on_free_function() {
    // N for fn foo ( self )
    let input = vec![
        id("N"),
        id("for"),
        id("fn"),
        id("foo"),
        op(),
        id("self"),
        cp(),
    ];
    let err = fn_struct(&input).unwrap_err();
    assert_eq!(err.kind, DiagKind::SelfNotMethod);
    assert_eq!(err.pos, 3);
}

#[test]
fn err_missing_for_keyword() {
    let input = vec![id("N"), id("fn"), id("foo"), op(), cp()];
    let err = fn_struct(&input).unwrap_err();
    assert_eq!(err.kind, DiagKind::ExpectedFor);
    assert_eq!(err.pos, 1);
}

#[test]
fn err_missing_fn_keyword() {
    let input = vec![id("N"), id("for"), id("foo"), op(), cp()];
    let err = fn_struct(&input).unwrap_err();
    assert_eq!(err.kind, DiagKind::ExpectedFn);
    assert_eq!(err.pos, 2);
}

#[test]
fn err_missing_argument_parens() {
    let input = vec![id("N"), id("for"), id("fn"), id("foo")];
    let err = fn_struct(&input).unwrap_err();
    assert_eq!(err.kind, DiagKind::ExpectedParen);
}

#[test]
fn err_field_without_type() {
    // N for fn a::b ( x )
    let input = vec![
        id("N"),
        id("for"),
        id("fn"),
        id("a"),
        pj(':'),
        p(':'),
        id("b"),
        op(),
        id("x"),
        cp(),
    ];
    let err = fn_struct(&input).unwrap_err();
    assert_eq!(err.kind, DiagKind::ExpectedColon);
    assert_eq!(err.pos, 9);
}

#[test]
fn err_empty_field_type() {
    // N for fn a::b ( x : = 1 )
    let input = vec![
        id("N"),
        id("for"),
        id("fn"),
        id("a"),
        pj(':'),
        p(':'),
        id("b"),
        op(),
        id("x"),
        p(':'),
        p('='),
        lit("1"),
        cp(),
    ];
    let err = fn_struct(&input).unwrap_err();
    assert_eq!(err.kind, DiagKind::ExpectedType);
    assert_eq!(err.pos, 10);
}

#[test]
fn err_assertion_needs_bracket_list() {
    // l , r , x
    let input = vec![id("l"), p(','), id("r"), p(','), id("x")];
    let err = assert_fields_eq(&input).unwrap_err();
    assert_eq!(err.kind, DiagKind::ExpectedBracket);
    assert_eq!(err.pos, 4);
}

#[test]
fn err_assertion_empty_field_list() {
    // l , r , [ ]
    let input = vec![id("l"), p(','), id("r"), p(','), obk(), cbk()];
    let err = assert_fields_eq(&input).unwrap_err();
    assert_eq!(err.kind, DiagKind::EmptyFields);
    assert_eq!(err.pos, 4);
}
