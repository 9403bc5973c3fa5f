use easy_error::attach::try_easy;
use easy_error::catalog::define_error;
use easy_error::tokens::MacroToken;

fn ident(s: &str) -> MacroToken {
    MacroToken::Ident(String::from(s))
}

#[test]
fn ui_tests() {
    // a valid declaration and a valid rewrite are accepted; the invalid
    // counterparts are rejected before any artifact is produced
    let decl = vec![
        ident("MyError"),
        MacroToken::Comma,
        ident("IoError"),
        MacroToken::Comma,
        ident("ParseError"),
    ];
    assert!(define_error(&decl).is_ok());
    let ctx = MacroToken::Text(String::from("Failed to perform some_operation"));
    assert!(try_easy(&ctx).is_ok());
    let bad_decl = vec![
        ident("MyError"),
        MacroToken::Comma,
        ident("A"),
        MacroToken::Comma,
        ident("A"),
    ];
    assert!(define_error(&bad_decl).is_err());
    assert!(try_easy(&MacroToken::Number(123)).is_err());
}

#[test]
fn catalog_of_distinct_names_is_declared() {
    let decl = vec![
        ident("Reasons"),
        MacroToken::Comma,
        ident("A"),
        MacroToken::Comma,
        ident("B"),
        MacroToken::Comma,
        ident("C"),
    ];
    let cat = define_error(&decl).ok().unwrap();
    assert_eq!(cat.name(), "Reasons");
    assert_eq!(cat.variant_count(), 3);
    assert_eq!(cat.variant_name(1), "B");
    let err = cat.variant_error(1);
    assert_eq!(err.context(), "B");
    assert_eq!(err.source().message(), "B");
    assert_eq!(err.render(), "B: B");
}

#[test]
fn duplicate_name_is_reported() {
    let decl = vec![ident("E"), MacroToken::Comma, ident("A"), MacroToken::Comma, ident("A")];
    let diags = define_error(&decl).err().unwrap();
    assert_eq!(diags.len(), 1);
    assert_eq!(diags[0].render(), "Duplicate variant name: A");
}

#[test]
fn repeats_are_each_reported_in_order() {
    let decl = vec![
        ident("E"),
        MacroToken::Comma,
        ident("A"),
        MacroToken::Comma,
        ident("B"),
        MacroToken::Comma,
        ident("A"),
        MacroToken::Comma,
        ident("B"),
        MacroToken::Comma,
        ident("A"),
    ];
    let diags = define_error(&decl).err().unwrap();
    let texts: Vec<String> = diags.iter().map(|d| d.render()).collect();
    assert_eq!(
        texts,
        vec![
            "Duplicate variant name: A",
            "Duplicate variant name: B",
            "Duplicate variant name: A",
        ]
    );
}

#[test]
fn empty_variant_list_is_reported() {
    let decl = vec![ident("E")];
    let diags = define_error(&decl).err().unwrap();
    assert_eq!(diags.len(), 1);
    assert_eq!(diags[0].render(), "define_error! requires at least one variant");
    // a comma with nothing after it leaves the list empty as well
    let decl2 = vec![ident("E"), MacroToken::Comma];
    let diags2 = define_error(&decl2).err().unwrap();
    assert_eq!(diags2.len(), 1);
    assert_eq!(diags2[0].render(), "define_error! requires at least one variant");
}

#[test]
fn non_string_context_is_rejected() {
    let d = try_easy(&MacroToken::Number(123)).err().unwrap();
    assert_eq!(d.render(), "expected string literal");
    assert!(try_easy(&MacroToken::Other).is_err());
}

#[test]
fn string_context_is_accepted() {
    let ctx = try_easy(&MacroToken::Text(String::from("ctx"))).ok().unwrap();
    assert_eq!(ctx, "ctx");
}

#[test]
fn malformed_declarations_are_rejected() {
    let d = define_error(&vec![MacroToken::Comma]).err().unwrap();
    assert_eq!(d[0].render(), "expected identifier");
    let d = define_error(&Vec::new()).err().unwrap();
    assert_eq!(d[0].render(), "expected identifier");
    let d = define_error(&vec![ident("E"), MacroToken::Comma, ident("A"), ident("B")])
        .err()
        .unwrap();
    assert_eq!(d[0].render(), "unexpected token");
    let d = define_error(&vec![ident("E"), MacroToken::Comma, MacroToken::Number(3)])
        .err()
        .unwrap();
    assert_eq!(d[0].render(), "expected identifier");
}

#[test]
fn trailing_comma_is_accepted() {
    let decl = vec![ident("E"), MacroToken::Comma, ident("A"), MacroToken::Comma];
    let cat = define_error(&decl).ok().unwrap();
    assert_eq!(cat.variant_count(), 1);
    assert_eq!(cat.variant_name(0), "A");
}
