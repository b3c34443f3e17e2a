use deriving_via::attrs::{parse_deriving, parse_transitive, via_from_shape};
use deriving_via::derives::{kind_by_name, name_of, DeriveKind};
use deriving_via::errors::{Abort, ExpandError, Failure};
use deriving_via::fields::{extract_fields, FieldsError};
use deriving_via::input::{Data, DeriveInput, FieldParts, GenericParts};
use deriving_via::invoke::{invoke_method, Variant};
use deriving_via::syntax::FnArgShape;
use deriving_via::text::{decimal_i32, decimal_string, starts_with};
use deriving_via::tokens::{render_stream, Delimiter, TokenTree};

fn ident(s: &str) -> TokenTree {
    TokenTree::Ident(s.to_string())
}

fn punct(s: &str, joint: bool) -> TokenTree {
    TokenTree::Punct(s.to_string(), joint)
}

fn parens(inner: Vec<TokenTree>) -> TokenTree {
    TokenTree::Group(Delimiter::Parenthesis, inner)
}

fn struct_of(name: &str, fields: Vec<FieldParts>) -> DeriveInput {
    DeriveInput {
        ident: name.to_string(),
        generics: GenericParts {
            params: String::new(),
            type_params: vec![],
            impl_generics: String::new(),
            ty_generics: String::new(),
            where_clause: None,
        },
        data: Data::Struct(fields),
        attrs: vec![],
    }
}

fn field(name: Option<&str>, ty: &str, underlying: bool) -> FieldParts {
    FieldParts {
        ident: name.map(|n| n.to_string()),
        ty: ty.to_string(),
        attrs: if underlying { vec!["underlying".to_string()] } else { vec![] },
    }
}

#[test]
fn renders_tokens_as_proc_macro2_prints_them() {
    let ts = vec![ident("i32"), punct("-", true), punct(">", false), ident("A")];
    assert_eq!(render_stream(&ts), "i32 -> A");
    let call = vec![ident("Display"), parens(vec![ident("via"), punct(":", false), ident("String")])];
    assert_eq!(render_stream(&call), "Display (via : String)");
}

#[test]
fn reads_a_deriving_attribute() {
    let meta = vec![
        ident("deriving"),
        parens(vec![
            ident("From"),
            punct(",", false),
            ident("Add"),
            parens(vec![ident("via"), punct("=", false), ident("i32")]),
            punct(",", false),
            ident("Display"),
            parens(vec![ident("via"), punct(":", false), ident("String")]),
        ]),
    ];
    let ds = parse_deriving(&meta).unwrap();
    assert_eq!(ds.len(), 3);
    assert_eq!(ds[0].ident.as_deref(), Some("From"));
    assert_eq!(ds[0].via, None);
    assert_eq!(ds[1].ident.as_deref(), Some("Add"));
    assert_eq!(ds[1].via.as_deref(), Some("i32"));
    assert_eq!(ds[2].ident.as_deref(), Some("Display"));
    assert_eq!(ds[2].via.as_deref(), Some("String"));
}

#[test]
fn reads_a_transitive_attribute() {
    let arrow = |v: &mut Vec<TokenTree>| {
        v.push(punct("-", true));
        v.push(punct(">", false));
    };
    let mut inner = vec![ident("i32")];
    arrow(&mut inner);
    inner.push(ident("A"));
    arrow(&mut inner);
    inner.push(ident("B"));
    arrow(&mut inner);
    inner.push(ident("C"));
    let meta = vec![ident("transitive"), parens(inner)];
    let tys = parse_transitive(&meta).unwrap();
    assert_eq!(tys, vec!["i32".to_string(), "A".to_string(), "B".to_string(), "C".to_string()]);
}

#[test]
fn trailing_comma_in_deriving_list() {
    let meta = vec![ident("deriving"), parens(vec![ident("From"), punct(",", false)])];
    let ds = parse_deriving(&meta).unwrap();
    assert_eq!(ds.len(), 1);
}

#[test]
fn via_from_the_shape_of_an_argument() {
    let typed = vec![ident("via"), punct(":", false), ident("Vec"), punct("<", false), ident("u32"), punct(">", false)];
    assert_eq!(via_from_shape(FnArgShape::Typed, &typed).unwrap(), "Vec < u32 >");
    let other = vec![ident("x"), punct(":", false), ident("u32")];
    let r = via_from_shape(FnArgShape::Typed, &other);
    assert!(matches!(r, Err(Failure::Error(ExpandError::ExpectedVia(p))) if p == "x"));
    let pattern = vec![ident("mut"), ident("via"), punct(":", false), ident("u32")];
    let r = via_from_shape(FnArgShape::Typed, &pattern);
    assert!(matches!(r, Err(Failure::Error(ExpandError::ExpectedVia(p))) if p == "mut via"));
    let path = vec![ident("a"), punct(":", true), punct(":", false), ident("b"), punct(":", false), ident("u8")];
    let r = via_from_shape(FnArgShape::Typed, &path);
    assert!(matches!(r, Err(Failure::Error(ExpandError::ExpectedVia(p))) if p == "a :: b"));
    assert!(matches!(via_from_shape(FnArgShape::Receiver, &typed), Err(Failure::Abort(Abort::SelfReceiver))));
    assert!(matches!(
        via_from_shape(FnArgShape::Invalid, &typed),
        Err(Failure::Error(ExpandError::InvalidArgument))
    ));
}

#[test]
fn single_unnamed_field() {
    let e = extract_fields(&struct_of("A", vec![field(None, "i32", false)])).unwrap();
    assert_eq!(e.accessor, "0");
    assert_eq!(e.ty, "i32");
    assert_eq!(e.constructor, "(|__| A(__))");
}

#[test]
fn marked_field_with_one_other() {
    let input = struct_of("T", vec![field(None, "i32", true), field(None, "PhantomData<T>", false)]);
    let e = extract_fields(&input).unwrap();
    assert_eq!(e.constructor, "(|__| T { 0: __, 1: Default::default() })");
    let alone = struct_of("T", vec![field(None, "i32", true), field(None, "u8", true)]);
    assert!(extract_fields(&alone).is_err());
}

#[test]
fn single_named_field() {
    let e = extract_fields(&struct_of("P", vec![field(Some("inner"), "u8", false)])).unwrap();
    assert_eq!(e.accessor, "inner");
    assert_eq!(e.constructor, "(|__| P { inner: __ })");
}

#[test]
fn marked_named_field_among_others() {
    let input = struct_of(
        "Q",
        vec![field(Some("a"), "u8", false), field(Some("b"), "String", true), field(Some("c"), "bool", false)],
    );
    let e = extract_fields(&input).unwrap();
    assert_eq!(e.accessor, "b");
    assert_eq!(e.ty, "String");
    assert_eq!(e.constructor, "(|__| Q { b: __, a: Default::default(), c: Default::default() })");
}

#[test]
fn marked_unnamed_field_in_eleven() {
    let mut fs: Vec<FieldParts> = (0..11).map(|_| field(None, "u8", false)).collect();
    fs[10] = field(None, "i64", true);
    let e = extract_fields(&struct_of("T", fs)).unwrap();
    assert_eq!(e.accessor, "10");
    assert!(e.constructor.starts_with("(|__| T { 10: __, 0: Default::default(),"));
    assert!(e.constructor.ends_with(", 9: Default::default() })"));
}

#[test]
fn several_fields_without_mark() {
    let r = extract_fields(&struct_of("R", vec![field(None, "u8", false), field(None, "u8", false)]));
    assert!(matches!(r, Err(FieldsError::UnderlyingRequired)));
    let r = extract_fields(&struct_of("R", vec![]));
    assert!(matches!(r, Err(FieldsError::UnderlyingRequired)));
}

#[test]
fn several_marked_fields() {
    let r = extract_fields(&struct_of("R", vec![field(None, "u8", true), field(None, "u8", true)]));
    assert!(matches!(r, Err(FieldsError::MultipleUnderlying)));
}

#[test]
fn union_input() {
    let mut input = struct_of("U", vec![]);
    input.data = Data::Union;
    assert!(matches!(extract_fields(&input), Err(FieldsError::NotAStruct)));
}

#[test]
fn derive_names_round_trip() {
    assert_eq!(kind_by_name(&"Display".to_string()), Some(DeriveKind::Display));
    assert_eq!(kind_by_name(&"IntoInner".to_string()), Some(DeriveKind::IntoInner));
    assert_eq!(kind_by_name(&"Debug".to_string()), None);
    assert_eq!(kind_by_name(&"Clone".to_string()), None);
    assert_eq!(kind_by_name(&"Copy".to_string()), None);
    assert_eq!(kind_by_name(&"Dbug".to_string()), None);
    assert_eq!(kind_by_name(&"".to_string()), None);
    assert_eq!(kind_by_name(&"display".to_string()), None);
    for k in [DeriveKind::AddAssign, DeriveKind::FromIterator, DeriveKind::Arithmetic] {
        assert_eq!(kind_by_name(&name_of(k).to_string()), Some(k));
    }
}

#[test]
fn invoke_sends_variants_to_snake_case_modules() {
    let variants: Vec<Variant> = ["Display", "FromStr", "IntoInner"]
        .iter()
        .map(|v| Variant { printed: v.to_string(), ident: v.to_string() })
        .collect();
    let text = invoke_method(&"AvailableDerives".to_string(), &variants);
    assert_eq!(
        text,
        "impl AvailableDerives { fn invoke(self, input: &syn::DeriveInput, via: Option<syn::Type>) -> \
         TokenStream { use AvailableDerives :: *; (match self { Display => display :: extract, \
         FromStr => from_str :: extract, IntoInner => into_inner :: extract })(input, via) } }"
    );
}

#[test]
fn invoke_of_an_empty_enum() {
    let text = invoke_method(&"E".to_string(), &vec![]);
    assert_eq!(text, "impl E { fn invoke(self, input: &syn::DeriveInput, via: Option<syn::Type>) -> TokenStream { use E :: *; (match self {  })(input, via) } }");
}

#[test]
fn decimal_text() {
    assert_eq!(decimal_string(0), "0");
    assert_eq!(decimal_string(1907), "1907");
    assert_eq!(decimal_i32(-42), "-42");
    assert_eq!(decimal_i32(i32::MIN), "-2147483648");
    assert_eq!(decimal_i32(i32::MAX), "2147483647");
}

#[test]
fn prefixes() {
    assert!(starts_with("user-mitama", "user-"));
    assert!(!starts_with("use", "user-"));
    assert!(starts_with("x", ""));
    assert!(!starts_with("item-1", "user-"));
}
