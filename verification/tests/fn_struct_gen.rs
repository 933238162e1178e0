use spread_syntax::fn_struct::fn_struct;
use spread_syntax::token::{Delim, Tok};

fn id(s: &str) -> Tok {
    Tok::Ident(s.to_string())
}

fn lit(s: &str) -> Tok {
    Tok::Lit(s.to_string())
}

fn p(c: char) -> Tok {
    Tok::Punct(c, false)
}

fn pj(c: char) -> Tok {
    Tok::Punct(c, true)
}

fn ob() -> Tok {
    Tok::Open(Delim::Brace)
}

fn cb() -> Tok {
    Tok::Close(Delim::Brace)
}

fn op() -> Tok {
    Tok::Open(Delim::Paren)
}

fn cp() -> Tok {
    Tok::Close(Delim::Paren)
}

/// A window of `needle` occurs in `hay`.
fn has_run(hay: &[Tok], needle: &[Tok]) -> bool {
    hay.windows(needle.len()).any(|w| w == needle)
}

#[test]
fn fn_struct_defaults_generate_default_impl() {
    // Foo for fn foo ( one : u32 = 1 , & two : u32 = 2 )
    let input = vec![
        id("Foo"),
        id("for"),
        id("fn"),
        id("foo"),
        op(),
        id("one"),
        p(':'),
        id("u32"),
        p('='),
        lit("1"),
        p(','),
        p('&'),
        id("two"),
        p(':'),
        id("u32"),
        p('='),
        lit("2"),
        cp(),
    ];
    let out = fn_struct(&input).unwrap();
    let expected = vec![
        // struct Foo { one : u32 , two : u32 }
        id("struct"),
        id("Foo"),
        ob(),
        id("one"),
        p(':'),
        id("u32"),
        p(','),
        id("two"),
        p(':'),
        id("u32"),
        cb(),
        // impl ::core::default::Default for Foo { fn default ( ) -> Self { Self { one : 1 , two : 2 } } }
        id("impl"),
        pj(':'),
        p(':'),
        id("core"),
        pj(':'),
        p(':'),
        id("default"),
        pj(':'),
        p(':'),
        id("Default"),
        id("for"),
        id("Foo"),
        ob(),
        id("fn"),
        id("default"),
        op(),
        cp(),
        pj('-'),
        p('>'),
        id("Self"),
        ob(),
        id("Self"),
        ob(),
        id("one"),
        p(':'),
        lit("1"),
        p(','),
        id("two"),
        p(':'),
        lit("2"),
        cb(),
        cb(),
        cb(),
        // impl Foo { pub fn call ( self , ) -> ( ) { foo ( self . one , & self . two ) } }
        id("impl"),
        id("Foo"),
        ob(),
        id("pub"),
        id("fn"),
        id("call"),
        op(),
        id("self"),
        p(','),
        cp(),
        pj('-'),
        p('>'),
        op(),
        cp(),
        ob(),
        id("foo"),
        op(),
        id("self"),
        p('.'),
        id("one"),
        p(','),
        p('&'),
        id("self"),
        p('.'),
        id("two"),
        cp(),
        cb(),
        cb(),
    ];
    assert_eq!(out, expected);
}

#[test]
fn fn_struct_receiver_and_generics() {
    // &VecPush<T: Clone> for fn Vec::<T>::push ( &mut self , + value : T )
    let input = vec![
        p('&'),
        id("VecPush"),
        p('<'),
        id("T"),
        p(':'),
        id("Clone"),
        p('>'),
        id("for"),
        id("fn"),
        id("Vec"),
        pj(':'),
        p(':'),
        p('<'),
        id("T"),
        p('>'),
        pj(':'),
        p(':'),
        id("push"),
        op(),
        p('&'),
        id("mut"),
        id("self"),
        p(','),
        p('+'),
        id("value"),
        p(':'),
        id("T"),
        cp(),
    ];
    let out = fn_struct(&input).unwrap();
    // the struct declaration carries the stripped generics
    assert!(has_run(
        &out,
        &[id("struct"), id("VecPush"), p('<'), id("T"), p('>'), ob()]
    ));
    // the implementation header keeps the bounds
    assert!(has_run(
        &out,
        &[
            id("impl"),
            p('<'),
            id("T"),
            p(':'),
            id("Clone"),
            p('>'),
            id("VecPush"),
            p('<'),
            id("T"),
            p('>'),
            ob()
        ]
    ));
    // call takes &self plus the receiver as a mutable reference to Vec::<T>
    assert!(has_run(
        &out,
        &[
            id("call"),
            op(),
            p('&'),
            id("self"),
            p(','),
            id("__self"),
            p(':'),
            p('&'),
            id("mut"),
            id("Vec"),
            pj(':'),
            p(':'),
            p('<'),
            id("T"),
            p('>'),
            p(','),
            cp()
        ]
    ));
    // the invocation passes the receiver first, then the cloned field
    assert!(has_run(
        &out,
        &[
            id("push"),
            op(),
            id("__self"),
            p(','),
            id("self"),
            p('.'),
            id("value"),
            p('.'),
            id("clone"),
            op(),
            cp(),
            cp()
        ]
    ));
    // no default implementation was generated
    assert!(!out.iter().any(|t| matches!(t, Tok::Ident(s) if s == "Default")));
}

#[test]
fn fn_struct_qualified_path_receiver() {
    // W for fn < T as Tr > :: m ( & self )
    let input = vec![
        id("W"),
        id("for"),
        id("fn"),
        p('<'),
        id("T"),
        id("as"),
        id("Tr"),
        p('>'),
        pj(':'),
        p(':'),
        id("m"),
        op(),
        p('&'),
        id("self"),
        cp(),
    ];
    let out = fn_struct(&input).unwrap();
    // the receiver type is the base type of the qualified path
    assert!(has_run(&out, &[id("__self"), p(':'), p('&'), id("T"), p(',')]));
}

#[test]
fn fn_struct_return_type_and_call_generics() {
    // P for<T> fn Vec::<T>::pop ( &mut self ) -> Option<T>
    let input = vec![
        id("P"),
        id("for"),
        p('<'),
        id("T"),
        p('>'),
        id("fn"),
        id("Vec"),
        pj(':'),
        p(':'),
        p('<'),
        id("T"),
        p('>'),
        pj(':'),
        p(':'),
        id("pop"),
        op(),
        p('&'),
        id("mut"),
        id("self"),
        cp(),
        pj('-'),
        p('>'),
        id("Option"),
        p('<'),
        id("T"),
        p('>'),
    ];
    let out = fn_struct(&input).unwrap();
    assert!(has_run(
        &out,
        &[
            id("call"),
            p('<'),
            id("T"),
            p('>'),
            op(),
            id("self"),
            p(','),
            id("__self"),
            p(':'),
            p('&'),
            id("mut"),
            id("Vec"),
            pj(':'),
            p(':'),
            p('<'),
            id("T"),
            p('>'),
            p(','),
            cp(),
            pj('-'),
            p('>'),
            id("Option"),
            p('<'),
            id("T"),
            p('>'),
        ]
    ));
}

#[test]
fn fn_struct_multiple_declarations() {
    // A for fn a::m ( ) ; B for fn b::m ( )
    let input = vec![
        id("A"),
        id("for"),
        id("fn"),
        id("a"),
        pj(':'),
        p(':'),
        id("m"),
        op(),
        cp(),
        p(';'),
        id("B"),
        id("for"),
        id("fn"),
        id("b"),
        pj(':'),
        p(':'),
        id("m"),
        op(),
        cp(),
    ];
    let out = fn_struct(&input).unwrap();
    assert!(has_run(&out, &[id("struct"), id("A"), ob(), cb()]));
    assert!(has_run(&out, &[id("struct"), id("B"), ob(), cb()]));
}

#[test]
fn fn_struct_attrs_and_visibility() {
    // #[attr] pub Foo for fn a::b ( )
    let input = vec![
        p('#'),
        Tok::Open(Delim::Bracket),
        id("attr"),
        Tok::Close(Delim::Bracket),
        id("pub"),
        id("Foo"),
        id("for"),
        id("fn"),
        id("a"),
        pj(':'),
        p(':'),
        id("b"),
        op(),
        cp(),
    ];
    let out = fn_struct(&input).unwrap();
    assert!(has_run(
        &out,
        &[
            p('#'),
            Tok::Open(Delim::Bracket),
            id("attr"),
            Tok::Close(Delim::Bracket),
            id("pub"),
            id("struct"),
            id("Foo"),
            ob(),
            cb()
        ]
    ));
}
