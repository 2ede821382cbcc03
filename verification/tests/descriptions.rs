use foreign_types::parse::{
    colons, is_reserved, is_segment, parse_attrs, parse_body, parse_ctype, parse_fn, parse_oibit,
    parse_oibits, parse_types, simple_path, visibility_ok, Capability, ConfigurationError,
    ForeignType, Input,
};
use foreign_types::syntax::{check_expr_path, check_path, is_askable};
use foreign_types::token::{find, find_close, render, slice, text_is, Delim, Token};
use proc_macro2::{Delimiter, Spacing, TokenStream, TokenTree};

const THING: &str = "
    /// This is a thing!
    pub type Thing: Sync + Send {
        type CType = thing_sys::thing;
        fn drop = thing_sys::thing_free;
        fn clone = thing_sys::thing_dup;
    }
";

fn flatten(stream: TokenStream, out: &mut Vec<Token>) {
    for tree in stream {
        match tree {
            TokenTree::Ident(t) => out.push(Token::Ident(t.to_string())),
            TokenTree::Literal(t) => out.push(Token::Literal(t.to_string())),
            TokenTree::Punct(t) => {
                out.push(Token::Punct(t.as_char().to_string(), t.spacing() == Spacing::Joint))
            }
            TokenTree::Group(t) => {
                let delim = match t.delimiter() {
                    Delimiter::Parenthesis => Some(Delim::Paren),
                    Delimiter::Brace => Some(Delim::Brace),
                    Delimiter::Bracket => Some(Delim::Bracket),
                    Delimiter::None => None,
                };
                if let Some(delim) = delim {
                    out.push(Token::Open(delim));
                }
                flatten(t.stream(), out);
                if let Some(delim) = delim {
                    out.push(Token::Close(delim));
                }
            }
        }
    }
}

fn tokens(text: &str) -> Vec<Token> {
    let mut out = Vec::new();
    flatten(text.parse().unwrap(), &mut out);
    out
}

fn ident(text: &str) -> Token {
    Token::Ident(text.to_string())
}

fn punct(text: &str) -> Token {
    Token::Punct(text.to_string(), false)
}

fn joint(text: &str) -> Token {
    Token::Punct(text.to_string(), true)
}

fn read(text: &str) -> Result<Input, ConfigurationError> {
    Input::parse("foreign_types", &tokens(text))
}

fn rejected(text: &str) -> ConfigurationError {
    read(text).unwrap_err()
}

#[test]
fn a_full_description_is_read() {
    let input = Input::parse("::foreign_types", &tokens(THING)).unwrap();
    assert_eq!(input.crate_, "::foreign_types");
    assert_eq!(input.types.len(), 1);
    let thing = &input.types[0];
    assert_eq!(thing.attrs, vec!["# [ doc = \" This is a thing!\" ]".to_string()]);
    assert_eq!(thing.visibility, "pub");
    assert_eq!(thing.name, "Thing");
    assert_eq!(thing.oibits, vec![Capability::Sync, Capability::Send]);
    assert_eq!(thing.ctype, "thing_sys :: thing");
    assert_eq!(thing.drop, "thing_sys :: thing_free");
    assert_eq!(thing.clone, Some("thing_sys :: thing_dup".to_string()));
}

#[test]
fn a_description_with_only_a_destructor_is_read() {
    let input = read("type Plain { type CType = c; fn drop = d; }").unwrap();
    let plain = &input.types[0];
    assert!(plain.attrs.is_empty());
    assert_eq!(plain.visibility, "");
    assert_eq!(plain.name, "Plain");
    assert!(plain.oibits.is_empty());
    assert_eq!(plain.ctype, "c");
    assert_eq!(plain.drop, "d");
    assert_eq!(plain.clone, None);
}

#[test]
fn several_descriptions_are_read_in_order() {
    let text = "pub type A { type CType = a; fn drop = da; }
                #[allow(dead_code)] #[repr(transparent)]
                pub(crate) type B: Send { type CType = b; fn drop = db; fn clone = cb; }";
    let input = read(text).unwrap();
    assert_eq!(input.types.len(), 2);
    assert_eq!(input.types[0].name, "A");
    assert_eq!(input.types[1].name, "B");
    assert_eq!(input.types[1].visibility, "pub ( crate )");
    assert_eq!(
        input.types[1].attrs,
        vec!["# [ allow ( dead_code ) ]".to_string(), "# [ repr ( transparent ) ]".to_string()]
    );
    assert_eq!(input.types[1].oibits, vec![Capability::Send]);
    assert_eq!(input.types[1].clone, Some("cb".to_string()));
    assert_eq!(parse_types(&tokens(text)).unwrap(), input.types);
}

#[test]
fn an_empty_input_holds_no_description() {
    assert!(read("").unwrap().types.is_empty());
    assert!(parse_types(&vec![]).unwrap().is_empty());
}

#[test]
fn paths_may_carry_generics_and_qualified_selves() {
    let text = "type G { type CType = sys::Wrapper::<u8>; fn drop = <sys::G as sys::Free>::free; }";
    let input = Input::parse("a::b", &tokens(text)).unwrap();
    assert_eq!(input.types[0].ctype, "sys :: Wrapper ::< u8 >");
    assert_eq!(input.types[0].drop, "< sys :: G as sys :: Free >:: free");
    let text = "type G { type CType = sys::Array::<[u8; 4]>; fn drop = sys::free::<'static>; }";
    let input = read(text).unwrap();
    assert_eq!(input.types[0].ctype, "sys :: Array ::< [ u8 ; 4 ] >");
    assert_eq!(input.types[0].drop, "sys :: free ::<'static >");
    let (scanned, _) = ForeignType::scan(&tokens(text), 0).unwrap();
    assert_eq!(scanned, input.types[0]);
}

#[test]
fn a_plus_may_follow_the_last_capability() {
    let input = read("type T: Sync + { type CType = c; fn drop = d; }").unwrap();
    assert_eq!(input.types[0].oibits, vec![Capability::Sync]);
    let input = read("type T: Send + Sync + { type CType = c; fn drop = d; }").unwrap();
    assert_eq!(input.types[0].oibits, vec![Capability::Send, Capability::Sync]);
}

#[test]
fn a_capability_is_named_once() {
    assert_eq!(rejected("type T: Send + Send { type CType = c; fn drop = d; }"), ConfigurationError::Capability);
    assert_eq!(
        rejected("type T: Send + Sync + Send { type CType = c; fn drop = d; }"),
        ConfigurationError::Capability
    );
    assert_eq!(rejected("type T: Sync + Sync + { type CType = c; fn drop = d; }"), ConfigurationError::Capability);
    let repeated = vec![punct(":"), ident("Send"), punct("+"), ident("Send"), Token::Open(Delim::Brace)];
    assert_eq!(parse_oibits(&repeated, 0), None);
    assert!(Capability::Send.is_in(&vec![Capability::Sync, Capability::Send]));
    assert!(!Capability::Send.is_in(&vec![Capability::Sync]));
    assert!(!Capability::Sync.is_in(&vec![]));
}

#[test]
fn a_crate_path_that_is_no_path_is_rejected() {
    let text = tokens("type T { type CType = c; fn drop = d; }");
    assert_eq!(Input::parse("", &text).unwrap_err(), ConfigurationError::CratePath);
    assert_eq!(Input::parse("a b", &text).unwrap_err(), ConfigurationError::CratePath);
    assert_eq!(Input::parse("a::", &text).unwrap_err(), ConfigurationError::CratePath);
    assert_eq!(Input::parse("1", &text).unwrap_err(), ConfigurationError::CratePath);
    assert_eq!(Input::parse("a<c\"x\">", &text).unwrap_err(), ConfigurationError::CratePath);
    assert_eq!(Input::parse("a<(/*ERROR*/)>", &text).unwrap_err(), ConfigurationError::CratePath);
    assert_eq!(Input::parse("a<1.5>", &text).unwrap_err(), ConfigurationError::CratePath);
    assert!(Input::parse("a<3>", &text).is_ok());
    assert!(Input::parse("a<'b>", &text).is_ok());
    assert!(Input::parse("a::b", &text).is_ok());
    assert!(Input::parse("::a", &text).is_ok());
    assert!(Input::parse("crate", &text).is_ok());
    assert!(Input::parse("a2::b_3", &text).is_ok());
}

#[test]
fn a_path_with_a_literal_other_than_a_plain_number_is_not_taken_for_a_path() {
    assert_eq!(rejected("type T { type CType = a::<c\"x\">; fn drop = d; }"), ConfigurationError::CType);
    assert_eq!(rejected("type T { type CType = a::<0x1F>; fn drop = d; }"), ConfigurationError::CType);
    assert_eq!(rejected("type T { type CType = a::<1u8>; fn drop = d; }"), ConfigurationError::CType);
    assert_eq!(rejected("type T { type CType = a::<1_000>; fn drop = d; }"), ConfigurationError::CType);
    assert_eq!(rejected("type T { type CType = a; fn drop = d::<\"s\">; }"), ConfigurationError::Destructor);
    assert_eq!(rejected("type T { type CType = a; fn drop = d::<'x'>; }"), ConfigurationError::Destructor);
    assert_eq!(rejected("type T { type CType = a; fn drop = d::<b'x'>; }"), ConfigurationError::Destructor);
    assert_eq!(
        rejected("type T { type CType = a; fn drop = d; fn clone = e::<1.5>; }"),
        ConfigurationError::Duplicator
    );
    let mut marked = tokens("type T { type CType = a::<X>; fn drop = d; }");
    assert_eq!(marked[10], ident("X"));
    marked[10] = Token::Literal("(/*ERROR*/)".to_string());
    assert_eq!(ForeignType::parse(&marked, 0).unwrap_err(), ConfigurationError::CType);
    assert_eq!(Input::parse("ft", &marked).unwrap_err(), ConfigurationError::CType);
    assert_eq!(ForeignType::scan(&marked, 0).unwrap().0.ctype, "a ::< (/*ERROR*/) >");
    assert!(read("type T { type CType = a1::b2::<u8>; fn drop = x509_free; }").is_ok());
    assert!(read("type T { type CType = a::<3>; fn drop = d::<007, 'static>; }").is_ok());
    assert!(read("type T { type CType = a::<'b>; fn drop = d; }").is_ok());
}

#[test]
fn texts_that_may_be_asked_are_told_apart() {
    for text in [
        "", "a :: b", "x509_free", "_1 :: a2b3 < u8 >", "Z9", "1", "a < 3 >", "a <3", "a.0",
        "\u{e9}1", "\u{e9}a1", "'a", "a::<'static, 3>", "< 'a , 'b >", "&'a T", "007", "3 >",
        "a :: < 3 , 4 >", "a\u{e9}",
    ] {
        assert!(is_askable(text), "{}", text);
    }
    for text in [
        "c\"x\"", "a\"", "\"", "1.5", "1e5", "0x1F", "1u8", "1_000", "3.", "3\u{e9}", "'a'", "b'a'", "a'b",
        "'", "'1", "' a", "'\u{e9}", "a'", "/", "(/*ERROR*/)", "a<(/*ERROR*/)>", "a // b", "a /* b */",
        "/// a", "3a", "a::<3x>", "'a''b", "'_'",
    ] {
        assert!(!is_askable(text), "{}", text);
    }
    assert!(check_path("a :: b"));
    assert!(check_path("::a::B<T>"));
    assert!(check_path("a<1>"));
    assert!(check_path("a<'b, 2>"));
    assert!(!check_path("a b"));
    assert!(!check_path("a<c\"x\">"));
    assert!(!check_path("a<(/*ERROR*/)>"));
    assert!(!check_path("a<1.0>"));
    assert!(!check_path("1"));
    assert!(!check_path("<T as U>::f"));
    assert!(check_expr_path("<T as U>::f"));
    assert!(check_expr_path("a::b::<T>"));
    assert!(check_expr_path("a::<3>"));
    assert!(check_expr_path("a::<'static>"));
    assert!(!check_expr_path("a::<c\"x\">"));
    assert!(!check_expr_path("a::<(/*ERROR*/)>"));
    assert!(!check_expr_path("a +"));
    assert!(!check_expr_path("a.0"));
    assert!(!check_expr_path(""));
}

#[test]
fn a_malformed_attribute_is_rejected() {
    assert_eq!(rejected("# type T { type CType = c; fn drop = d; }"), ConfigurationError::Attribute);
    assert_eq!(rejected("#[] type T { type CType = c; fn drop = d; }"), ConfigurationError::Attribute);
    assert_eq!(rejected("#(doc) type T { type CType = c; fn drop = d; }"), ConfigurationError::Attribute);
    assert_eq!(rejected("#[= 3] type T { type CType = c; fn drop = d; }"), ConfigurationError::Attribute);
    assert_eq!(rejected("#[fn] type T { type CType = c; fn drop = d; }"), ConfigurationError::Attribute);
    assert_eq!(rejected("#[a::] type T { type CType = c; fn drop = d; }"), ConfigurationError::Attribute);
    assert_eq!(rejected("#[a::3] type T { type CType = c; fn drop = d; }"), ConfigurationError::Attribute);
    assert_eq!(rejected("#[doc] #"), ConfigurationError::Attribute);
    let unclosed = vec![punct("#"), Token::Open(Delim::Bracket), ident("doc")];
    assert_eq!(ForeignType::parse(&unclosed, 0).unwrap_err(), ConfigurationError::Attribute);
}

#[test]
fn attributes_begin_with_a_path() {
    for written in ["#[doc]", "#[a::b]", "#[::a::b(c)]", "#[self::x = 3]", "#[cfg(all(a, b))] #[x]"] {
        let text = format!("{} type T {{ type CType = c; fn drop = d; }}", written);
        assert!(read(&text).is_ok(), "{}", written);
    }
    let input = read("#[a::b(c, \"d\")] type T { type CType = c; fn drop = d; }").unwrap();
    assert_eq!(input.types[0].attrs, vec!["# [ a :: b ( c , \"d\" ) ]".to_string()]);
}

#[test]
fn a_malformed_visibility_is_rejected() {
    assert_eq!(rejected("pub(foo) type T { type CType = c; fn drop = d; }"), ConfigurationError::Visibility);
    assert_eq!(rejected("pub() type T { type CType = c; fn drop = d; }"), ConfigurationError::Visibility);
    assert_eq!(rejected("pub(crate, self) type T { type CType = c; fn drop = d; }"), ConfigurationError::Visibility);
    assert_eq!(rejected("pub(in) type T { type CType = c; fn drop = d; }"), ConfigurationError::Visibility);
    assert_eq!(rejected("pub(in a::) type T { type CType = c; fn drop = d; }"), ConfigurationError::Visibility);
    assert_eq!(rejected("pub(in a b) type T { type CType = c; fn drop = d; }"), ConfigurationError::Visibility);
    assert_eq!(rejected("pub(crate) pub type T { type CType = c; fn drop = d; }"), ConfigurationError::Visibility);
    assert_eq!(rejected("pub[crate] type T { type CType = c; fn drop = d; }"), ConfigurationError::Visibility);
    assert_eq!(rejected("public type T { type CType = c; fn drop = d; }"), ConfigurationError::Visibility);
    assert_eq!(rejected("pub pub type T { type CType = c; fn drop = d; }"), ConfigurationError::Visibility);
    assert_eq!(rejected("T { type CType = c; fn drop = d; }"), ConfigurationError::Visibility);
    assert_eq!(rejected("pub"), ConfigurationError::Visibility);
    assert_eq!(rejected("#[doc]"), ConfigurationError::Visibility);
    let stray = vec![ident("pub"), Token::Close(Delim::Paren), ident("type")];
    assert_eq!(ForeignType::parse(&stray, 0).unwrap_err(), ConfigurationError::Visibility);
}

#[test]
fn every_visibility_of_rust_is_accepted() {
    for (written, read_as) in [
        ("", ""),
        ("pub", "pub"),
        ("crate", "crate"),
        ("pub(crate)", "pub ( crate )"),
        ("pub(super)", "pub ( super )"),
        ("pub(self)", "pub ( self )"),
        ("pub(in a::b)", "pub ( in a :: b )"),
        ("pub(in ::a)", "pub ( in :: a )"),
        ("pub(in crate::a::b)", "pub ( in crate :: a :: b )"),
    ] {
        let text = format!("{} type T {{ type CType = c; fn drop = d; }}", written);
        let input = read(&text).unwrap();
        assert_eq!(input.types[0].visibility, read_as);
        assert!(visibility_ok(&tokens(written)));
    }
    assert!(!visibility_ok(&tokens("pub(a)")));
    assert!(!visibility_ok(&tokens("pub(in a) x")));
    assert!(!visibility_ok(&tokens("pub(crate)(crate)")));
    assert!(!visibility_ok(&tokens("type")));
}

#[test]
fn a_missing_or_malformed_name_is_rejected() {
    assert_eq!(rejected("pub type { type CType = c; fn drop = d; }"), ConfigurationError::Name);
    assert_eq!(rejected("pub type fn { type CType = c; fn drop = d; }"), ConfigurationError::Name);
    assert_eq!(rejected("pub type _ { type CType = c; fn drop = d; }"), ConfigurationError::Name);
    assert_eq!(rejected("pub type Self { type CType = c; fn drop = d; }"), ConfigurationError::Name);
    assert_eq!(rejected("pub type 3 { type CType = c; fn drop = d; }"), ConfigurationError::Name);
    assert_eq!(rejected("pub type"), ConfigurationError::Name);
    assert!(read("pub type r#type { type CType = c; fn drop = d; }").is_ok());
    assert!(read("pub type union { type CType = c; fn drop = d; }").is_ok());
}

#[test]
fn reserved_words_name_nothing() {
    for word in [
        "_", "abstract", "as", "become", "box", "break", "const", "continue", "crate", "do", "else",
        "enum", "extern", "false", "final", "fn", "for", "if", "impl", "in", "let", "loop", "macro", "match",
        "mod", "move", "mut", "override", "priv", "pub", "ref", "return", "Self", "self", "static",
        "struct", "super", "trait", "true", "type", "typeof", "unsafe", "unsized", "use", "virtual",
        "where", "while", "yield",
    ] {
        assert!(is_reserved(&word.to_string()), "{}", word);
        assert!(syn::parse_str::<syn::Ident>(word).is_err(), "{}", word);
    }
    for word in ["Thing", "union", "async", "dyn", "try", "r#type", "selfish", "Type", "__"] {
        assert!(!is_reserved(&word.to_string()), "{}", word);
        assert!(syn::parse_str::<syn::Ident>(word).is_ok(), "{}", word);
    }
    assert!(is_segment(&ident("a")));
    assert!(is_segment(&ident("super")));
    assert!(is_segment(&ident("self")));
    assert!(is_segment(&ident("Self")));
    assert!(is_segment(&ident("crate")));
    assert!(!is_segment(&ident("fn")));
    assert!(!is_segment(&ident("_")));
    assert!(!is_segment(&punct("a")));
    assert!(!is_segment(&Token::Literal("a".to_string())));
}

#[test]
fn simple_paths_are_segments_between_colons() {
    assert!(simple_path(&tokens("a"), 0, true));
    assert!(simple_path(&tokens("a::b::c"), 0, true));
    assert!(simple_path(&tokens("::a::b"), 0, true));
    assert!(simple_path(&tokens("in a::b"), 1, true));
    assert!(simple_path(&tokens("a::b(c)"), 0, false));
    assert!(simple_path(&tokens("a = 3"), 0, false));
    assert!(!simple_path(&tokens("a::b(c)"), 0, true));
    assert!(!simple_path(&tokens("a::"), 0, false));
    assert!(!simple_path(&tokens("a::"), 0, true));
    assert!(!simple_path(&tokens("a::fn"), 0, false));
    assert!(!simple_path(&tokens("::"), 0, false));
    assert!(!simple_path(&tokens(""), 0, false));
    assert!(!simple_path(&tokens("a"), 1, false));
    assert!(!simple_path(&tokens("a"), 7, false));
    assert!(!simple_path(&tokens("a : : b"), 0, true));
    assert!(simple_path(&tokens("a : : b"), 0, false));
    assert!(colons(&tokens("a::b"), 1));
    assert!(!colons(&tokens("a::b"), 0));
    assert!(!colons(&tokens("a::b"), 2));
    assert!(!colons(&tokens("a : : b"), 1));
    assert!(!colons(&tokens("a:"), 1));
    assert!(!colons(&tokens("a"), 5));
}

#[test]
fn an_unknown_capability_is_rejected() {
    assert_eq!(rejected("type T: Copy { type CType = c; fn drop = d; }"), ConfigurationError::Capability);
    assert_eq!(rejected("type T: Sync + Copy { type CType = c; fn drop = d; }"), ConfigurationError::Capability);
    assert_eq!(rejected("type T: sync { type CType = c; fn drop = d; }"), ConfigurationError::Capability);
    assert_eq!(rejected("type T: { type CType = c; fn drop = d; }"), ConfigurationError::Capability);
    assert_eq!(rejected("type T: Sync Send { type CType = c; fn drop = d; }"), ConfigurationError::Capability);
    assert_eq!(rejected("type T: Sync, Send { type CType = c; fn drop = d; }"), ConfigurationError::Capability);
    assert_eq!(rejected("type T: Sync +"), ConfigurationError::Capability);
    assert_eq!(rejected("type T: Sync"), ConfigurationError::Capability);
}

#[test]
fn a_missing_body_is_rejected() {
    assert_eq!(rejected("pub type T"), ConfigurationError::Body);
    assert_eq!(rejected("pub type T;"), ConfigurationError::Body);
    assert_eq!(rejected("pub type T Sync { type CType = c; fn drop = d; }"), ConfigurationError::Body);
    assert_eq!(rejected("pub type T ( type CType = c; fn drop = d; )"), ConfigurationError::Body);
    let unclosed = vec![ident("type"), ident("T"), Token::Open(Delim::Brace), ident("type")];
    assert_eq!(ForeignType::parse(&unclosed, 0).unwrap_err(), ConfigurationError::Body);
    let mismatched = vec![ident("type"), ident("T"), Token::Open(Delim::Brace), Token::Close(Delim::Paren)];
    assert_eq!(ForeignType::parse(&mismatched, 0).unwrap_err(), ConfigurationError::Body);
}

#[test]
fn a_missing_foreign_type_is_rejected() {
    assert_eq!(rejected("type T { }"), ConfigurationError::CType);
    assert_eq!(rejected("type T { fn drop = d; }"), ConfigurationError::CType);
    assert_eq!(rejected("type T { type Other = c; fn drop = d; }"), ConfigurationError::CType);
    assert_eq!(rejected("type T { type CType = ; fn drop = d; }"), ConfigurationError::CType);
    assert_eq!(rejected("type T { type CType = c }"), ConfigurationError::CType);
    assert_eq!(rejected("type T { type CType = a b; fn drop = d; }"), ConfigurationError::CType);
}

#[test]
fn an_absent_destructor_is_rejected() {
    assert_eq!(rejected("type T { type CType = c; }"), ConfigurationError::Destructor);
    assert_eq!(rejected("type T { type CType = c; fn clone = d; }"), ConfigurationError::Destructor);
    assert_eq!(rejected("type T { type CType = c; fn drop = a + b; }"), ConfigurationError::Destructor);
    assert_eq!(rejected("type T { type CType = c; fn drop d; }"), ConfigurationError::Destructor);
    assert_eq!(rejected("type T { type CType = c; fn drop = d }"), ConfigurationError::Destructor);
}

#[test]
fn an_inconsistent_duplicator_is_rejected() {
    assert_eq!(
        rejected("type T { type CType = c; fn drop = d; fn clone = e; fn clone = f; }"),
        ConfigurationError::Duplicator
    );
    assert_eq!(
        rejected("type T { type CType = c; fn drop = d; fn drop = e; }"),
        ConfigurationError::Duplicator
    );
    assert_eq!(
        rejected("type T { type CType = c; fn drop = d; fn clone = ; }"),
        ConfigurationError::Duplicator
    );
    assert_eq!(
        rejected("type T { type CType = c; fn drop = d; fn clone = e; ; }"),
        ConfigurationError::Duplicator
    );
    assert_eq!(
        rejected("type T { type CType = c; fn drop = d; clone }"),
        ConfigurationError::Duplicator
    );
}

#[test]
fn the_first_rejected_description_gives_the_error() {
    let text = "type A { type CType = a; fn drop = d; }
                type B: Copy { type CType = b; }
                type { }";
    assert_eq!(rejected(text), ConfigurationError::Capability);
    assert_eq!(parse_types(&tokens(text)).unwrap_err(), ConfigurationError::Capability);
    let text = "type A { type CType = a; fn drop = d e; }
                type B: Copy { type CType = b; }";
    assert_eq!(rejected(text), ConfigurationError::Capability);
    assert_eq!(parse_types(&tokens(text)).unwrap_err(), ConfigurationError::Capability);
    assert_eq!(ForeignType::parse(&tokens(text), 0).unwrap_err(), ConfigurationError::Destructor);
    let text = "type A { type CType = a; fn drop = d; }
                type B { type CType = b; fn drop = d; fn clone = e f; }
                type C { type CType = 1; fn drop = d; }";
    assert_eq!(rejected(text), ConfigurationError::Duplicator);
    assert_eq!(Input::parse("a b", &tokens(text)).unwrap_err(), ConfigurationError::CratePath);
    let types = parse_types(&tokens(text)).unwrap();
    let input = Input { crate_: "ft".to_string(), types };
    assert_eq!(input.check_paths(), Err(ConfigurationError::Duplicator));
    let input = Input { crate_: "ft".to_string(), types: input.types[..1].to_vec() };
    assert_eq!(input.check_paths(), Ok(()));
    let input = Input { crate_: "f t".to_string(), types: vec![] };
    assert_eq!(input.check_paths(), Err(ConfigurationError::CratePath));
    assert_eq!(Input::parse("a b", &tokens("type")).unwrap_err(), ConfigurationError::Name);
}

#[test]
fn what_cannot_be_read_is_rejected_before_any_path_is_asked() {
    let text = "type A { type CType = a b; fn drop = d; fn clone = e; f }";
    assert_eq!(rejected(text), ConfigurationError::Duplicator);
    let text = "type A { type CType = a b; fn drop = 1; fn clone = e; }";
    assert_eq!(rejected(text), ConfigurationError::CType);
    let (scanned, next) = ForeignType::scan(&tokens(text), 0).unwrap();
    assert_eq!(next, 20);
    assert_eq!(scanned.ctype, "a b");
    assert_eq!(scanned.drop, "1");
    assert_eq!(scanned.clone, Some("e".to_string()));
    assert_eq!(scanned.check_paths(), Err(ConfigurationError::CType));
}

#[test]
fn the_answers_on_the_paths_settle_a_description() {
    let (with, _) = ForeignType::scan(&tokens("type A { type CType = a; fn drop = d; fn clone = e; }"), 0).unwrap();
    let (without, _) = ForeignType::scan(&tokens("type A { type CType = a; fn drop = d; }"), 0).unwrap();
    assert_eq!(with.settle(true, true, true), Ok(()));
    assert_eq!(with.settle(false, true, true), Err(ConfigurationError::CType));
    assert_eq!(with.settle(false, false, false), Err(ConfigurationError::CType));
    assert_eq!(with.settle(true, false, true), Err(ConfigurationError::Destructor));
    assert_eq!(with.settle(true, false, false), Err(ConfigurationError::Destructor));
    assert_eq!(with.settle(true, true, false), Err(ConfigurationError::Duplicator));
    assert_eq!(without.settle(true, true, false), Ok(()));
    assert_eq!(without.settle(true, true, true), Ok(()));
    assert_eq!(without.settle(true, false, false), Err(ConfigurationError::Destructor));
    assert_eq!(with.check_paths(), Ok(()));
    assert_eq!(without.check_paths(), Ok(()));
}

#[test]
fn every_error_has_its_message() {
    assert_eq!(ConfigurationError::CratePath.message(), "the path to the library is not a path");
    assert_eq!(
        ConfigurationError::Attribute.message(),
        "expected an attribute: `#` and a group in square brackets"
    );
    assert_eq!(ConfigurationError::Visibility.message(), "expected a visibility and `type`");
    assert_eq!(ConfigurationError::Name.message(), "expected the name of the type");
    assert_eq!(
        ConfigurationError::Capability.message(),
        "expected `Sync` or `Send`, each once, separated by `+`"
    );
    assert_eq!(ConfigurationError::Body.message(), "expected a group in braces");
    assert_eq!(ConfigurationError::CType.message(), "expected `type CType = path;`");
    assert_eq!(ConfigurationError::Destructor.message(), "expected `fn drop = path;`");
    assert_eq!(
        ConfigurationError::Duplicator.message(),
        "expected `fn clone = path;` and nothing after it"
    );
}

#[test]
fn capabilities_are_known_by_name() {
    assert_eq!(Capability::from_name("Sync"), Some(Capability::Sync));
    assert_eq!(Capability::from_name("Send"), Some(Capability::Send));
    assert_eq!(Capability::from_name("send"), None);
    assert_eq!(Capability::from_name("Copy"), None);
    assert_eq!(Capability::from_name(""), None);
    assert_eq!(Capability::Sync.name(), "Sync");
    assert_eq!(Capability::Send.name(), "Send");
}

#[test]
fn a_description_is_read_from_tokens() {
    let tokens = vec![
        ident("pub"),
        ident("type"),
        ident("Thing"),
        punct(":"),
        ident("Send"),
        Token::Open(Delim::Brace),
        ident("type"),
        ident("CType"),
        punct("="),
        ident("sys"),
        joint(":"),
        punct(":"),
        ident("thing"),
        punct(";"),
        ident("fn"),
        ident("drop"),
        punct("="),
        ident("free"),
        punct(";"),
        Token::Close(Delim::Brace),
        ident("type"),
    ];
    let (thing, next) = ForeignType::parse(&tokens, 0).unwrap();
    assert_eq!(next, 20);
    assert_eq!(
        thing,
        ForeignType {
            attrs: vec![],
            visibility: "pub".to_string(),
            name: "Thing".to_string(),
            oibits: vec![Capability::Send],
            ctype: "sys :: thing".to_string(),
            drop: "free".to_string(),
            clone: None,
        }
    );
    assert_eq!(ForeignType::scan(&tokens, 0).unwrap(), (thing, 20));
    assert_eq!(ForeignType::parse(&tokens, 1).unwrap().1, 20);
    assert_eq!(ForeignType::parse(&tokens, 2).unwrap_err(), ConfigurationError::Visibility);
    assert_eq!(ForeignType::parse(&tokens, 6).unwrap_err(), ConfigurationError::Body);
    assert_eq!(ForeignType::parse(&tokens, 20).unwrap_err(), ConfigurationError::Name);
    assert_eq!(ForeignType::parse(&tokens, 21).unwrap_err(), ConfigurationError::Visibility);
    assert_eq!(ForeignType::parse(&tokens, 70).unwrap_err(), ConfigurationError::Visibility);
    assert_eq!(parse_types(&tokens).unwrap_err(), ConfigurationError::Name);
    assert_eq!(parse_types(&tokens[..20].to_vec()).unwrap().len(), 1);
}

#[test]
fn the_lines_of_a_body_are_read() {
    let tokens = tokens("type CType = a::b; fn drop = free::<[u8; 2]>;");
    assert_eq!(parse_ctype(&tokens, 0), Some(("a :: b".to_string(), 8)));
    assert_eq!(parse_ctype(&tokens, 8), None);
    assert_eq!(parse_ctype(&tokens, 99), None);
    assert_eq!(parse_fn(&tokens, 8, "drop"), Some(("free ::< [ u8 ; 2 ] >".to_string(), tokens.len())));
    assert_eq!(parse_fn(&tokens, 8, "clone"), None);
    assert_eq!(parse_fn(&tokens, 0, "drop"), None);
    assert_eq!(
        parse_body(&tokens),
        Ok(("a :: b".to_string(), "free ::< [ u8 ; 2 ] >".to_string(), None))
    );
    assert_eq!(parse_body(&tokens[..8].to_vec()), Err(ConfigurationError::Destructor));
    assert_eq!(parse_body(&tokens[8..].to_vec()), Err(ConfigurationError::CType));
    assert_eq!(parse_body(&tokens[..tokens.len() - 1].to_vec()), Err(ConfigurationError::Destructor));
}

#[test]
fn colons_apart_are_no_path() {
    let text = "type T { type CType = a : : b; fn drop = d; }";
    assert_eq!(rejected(text), ConfigurationError::CType);
    assert_eq!(ForeignType::scan(&tokens(text), 0).unwrap().0.ctype, "a : : b");
}

#[test]
fn capabilities_are_read_up_to_the_braces() {
    let tokens = vec![
        punct(":"),
        ident("Sync"),
        punct("+"),
        ident("Send"),
        Token::Open(Delim::Brace),
        ident("Copy"),
    ];
    assert_eq!(parse_oibit(&tokens, 1), Some(Capability::Sync));
    assert_eq!(parse_oibit(&tokens, 3), Some(Capability::Send));
    assert_eq!(parse_oibit(&tokens, 0), None);
    assert_eq!(parse_oibit(&tokens, 5), None);
    assert_eq!(parse_oibit(&tokens, 6), None);
    assert_eq!(
        parse_oibits(&tokens, 0),
        Some((vec![Capability::Sync, Capability::Send], 4))
    );
    assert_eq!(parse_oibits(&tokens, 1), Some((vec![], 1)));
    assert_eq!(parse_oibits(&tokens, 4), Some((vec![], 4)));
    assert_eq!(parse_oibits(&tokens, 9), Some((vec![], 9)));
    assert_eq!(parse_oibits(&vec![punct(":"), ident("Sync")], 0), None);
    assert_eq!(parse_oibits(&vec![punct(":"), Token::Open(Delim::Brace)], 0), None);
}

#[test]
fn attributes_are_read_while_a_pound_sign_stands() {
    let tokens = tokens("#[doc = \"x\"] #[inline] pub");
    assert_eq!(
        parse_attrs(&tokens, 0),
        Some((vec!["# [ doc = \"x\" ]".to_string(), "# [ inline ]".to_string()], 10))
    );
    assert_eq!(parse_attrs(&tokens, 6), Some((vec!["# [ inline ]".to_string()], 10)));
    assert_eq!(parse_attrs(&tokens, 10), Some((vec![], 10)));
    assert_eq!(parse_attrs(&tokens, 1), Some((vec![], 1)));
    assert_eq!(parse_attrs(&tokens, 80), Some((vec![], 80)));
    assert_eq!(parse_attrs(&tokens[..7].to_vec(), 0), None);
    assert_eq!(parse_attrs(&tokens[..9].to_vec(), 0), None);
}

#[test]
fn tokens_are_rendered_with_their_gaps() {
    let tokens = vec![
        ident("a"),
        joint(":"),
        punct(":"),
        ident("b"),
        Token::Open(Delim::Paren),
        ident("x"),
        Token::Close(Delim::Paren),
        Token::Open(Delim::Bracket),
        Token::Close(Delim::Bracket),
        Token::Open(Delim::Brace),
        Token::Close(Delim::Brace),
        Token::Literal("1u8".to_string()),
        joint("'"),
        ident("life"),
    ];
    assert_eq!(render(&tokens, 0, 14), "a :: b ( x ) [ ] { } 1u8 'life");
    assert_eq!(render(&tokens, 0, 4), "a :: b");
    assert_eq!(render(&tokens, 1, 3), "::");
    assert_eq!(render(&tokens, 1, 2), ":");
    assert_eq!(render(&tokens, 3, 3), "");
    assert_eq!(tokens[4].text(), "(");
    assert_eq!(tokens[8].text(), "]");
    assert_eq!(tokens[0].text(), "a");
    assert_eq!(slice(&tokens, 3, 6), tokens[3..6].to_vec());
    assert_eq!(slice(&tokens, 2, 2), vec![]);
    assert_eq!(tokens[11].copy(), tokens[11]);
}

#[test]
fn the_first_matching_token_outside_a_group_is_found() {
    let tokens = tokens("pub ; type { type ; } \"type\" ( [ ; ] type ) ;; type");
    assert_eq!(tokens.len(), 17);
    assert_eq!(find(&tokens, 0, false, "type"), 2);
    assert_eq!(find(&tokens, 2, false, "type"), 2);
    assert_eq!(find(&tokens, 3, false, "type"), 16);
    assert_eq!(find(&tokens, 4, false, "type"), 4);
    assert_eq!(find(&tokens, 5, false, "type"), 17);
    assert_eq!(find(&tokens, 9, false, "type"), 12);
    assert_eq!(find(&tokens, 17, false, "type"), 17);
    assert_eq!(find(&tokens, 0, true, ";"), 1);
    assert_eq!(find(&tokens, 2, true, ";"), 14);
    assert_eq!(find(&tokens, 15, true, ";"), 15);
    assert_eq!(find(&tokens, 10, true, ";"), 10);
    assert_eq!(find(&tokens, 0, true, "type"), 17);
    assert_eq!(find(&tokens, 0, false, "fn"), 17);
    assert_eq!(find_close(&tokens, 4), 6);
    assert_eq!(find_close(&tokens, 9), 13);
    assert_eq!(find_close(&tokens, 10), 11);
    assert_eq!(find_close(&tokens, 0), 17);
    assert_eq!(find_close(&tokens, 14), 17);
    assert!(tokens[0].is_word("pub"));
    assert!(!tokens[0].is_word("pu"));
    assert!(!tokens[0].is_punct("pub"));
    assert!(tokens[1].is_punct(";"));
    assert!(tokens[15].is_punct(";"));
    assert!(tokens[14].is_joint(";"));
    assert!(!tokens[15].is_joint(";"));
    assert!(tokens[3].is_open(Delim::Brace));
    assert!(!tokens[3].is_open(Delim::Paren));
    assert!(!tokens[3].is_close(Delim::Brace));
    assert!(tokens[6].is_close(Delim::Brace));
    assert!(!tokens[7].is_word("type"));
    assert!(text_is(&"type".to_string(), "type"));
    assert!(!text_is(&"type".to_string(), "typ"));
}

#[test]
fn visibilities_are_those_that_syn_reads() {
    for written in [
        "", "pub", "crate", "pub(crate)", "pub(self)", "pub(super)", "pub(in a)", "pub(in a::b)",
        "pub(in ::a::b)", "pub(in crate::a)", "pub(in self)", "pub(in super::super)",
        "pub(a)", "pub()", "pub(in)", "pub(in a::)", "pub(in a b)", "pub(in ::)", "pub(crate::a)",
        "pub(crate) x", "pub pub", "pub crate", "x", "pub[crate]", "pub{crate}", "pub(in fn)",
        "pub(in a::<T>)", "pub(Self)", "pub(in Self)", "crate::a", "crate crate", "pub(crate)(crate)",
        "pub((crate))", "pub(in (a))",
    ] {
        assert_eq!(
            visibility_ok(&tokens(written)),
            syn::parse_str::<syn::Visibility>(written).is_ok(),
            "{}",
            written
        );
    }
}

#[test]
fn attributes_are_those_that_syn_reads() {
    for written in [
        "#[doc]", "#[doc = \"x\"]", "#[a::b]", "#[::a]", "#[a::b::c(d)]", "#[self]", "#[super::a]",
        "#[crate::a]", "#[Self]", "#[a b c]", "#[a(b)(c)]", "#[a::b = 1 + 2]", "#[a] #[b]",
        "#[]", "#[= 1]", "#[fn]", "#[a::]", "#[a::fn]", "#[::]", "#[1]", "#[(a)]", "#[a::<T>]",
        "#(a)", "#{a}", "#!", "#![a]", "# a", "#[a] #", "#[_]", "#[a : : b]", "#[a :: b]",
    ] {
        let read = match parse_attrs(&tokens(written), 0) {
            Some((_, next)) => next == tokens(written).len(),
            None => false,
        };
        let by_syn = syn::parse::Parser::parse_str(syn::Attribute::parse_outer, written).is_ok();
        assert_eq!(read, by_syn, "{}", written);
    }
}
