use deriving_via::errors::{Abort, ExpandError, Keyword};
use deriving_via::expand::{derive_generalised_newtype_deriving, impl_deriving_via, Item};
use deriving_via::invoke::into_extract;
use deriving_via::fields::FieldsError;
use deriving_via::generate::custom_debug;
use deriving_via::input::{Attribute, Data, DeriveInput, FieldParts, GenericParts};
use deriving_via::tokens::{render_stream, Delimiter, TokenTree};

fn convert(tt: proc_macro2::TokenTree) -> TokenTree {
    match tt {
        proc_macro2::TokenTree::Ident(i) => TokenTree::Ident(i.to_string()),
        proc_macro2::TokenTree::Punct(p) => {
            TokenTree::Punct(p.as_char().to_string(), p.spacing() == proc_macro2::Spacing::Joint)
        }
        proc_macro2::TokenTree::Literal(l) => TokenTree::Literal(l.to_string()),
        proc_macro2::TokenTree::Group(g) => {
            let d = match g.delimiter() {
                proc_macro2::Delimiter::Parenthesis => Delimiter::Parenthesis,
                proc_macro2::Delimiter::Brace => Delimiter::Brace,
                proc_macro2::Delimiter::Bracket => Delimiter::Bracket,
                proc_macro2::Delimiter::None => Delimiter::Invisible,
            };
            TokenTree::Group(d, g.stream().into_iter().map(convert).collect())
        }
    }
}

fn attr(text: &str) -> Attribute {
    let ts: proc_macro2::TokenStream = text.parse().unwrap();
    Attribute { meta: ts.into_iter().map(convert).collect() }
}

fn no_generics() -> GenericParts {
    GenericParts {
        params: String::new(),
        type_params: vec![],
        impl_generics: String::new(),
        ty_generics: String::new(),
        where_clause: None,
    }
}

fn tuple_field(ty: &str) -> FieldParts {
    FieldParts { ident: None, ty: ty.to_string(), attrs: vec![] }
}

fn newtype(name: &str, ty: &str, attrs: &[&str]) -> DeriveInput {
    DeriveInput {
        ident: name.to_string(),
        generics: no_generics(),
        data: Data::Struct(vec![tuple_field(ty)]),
        attrs: attrs.iter().map(|a| attr(a)).collect(),
    }
}

fn code(item: &Item) -> String {
    match item {
        Item::Code(s) => s.clone(),
        Item::Error(e) => panic!("expected code, got {:?}", e),
    }
}

fn parses_as_items(text: &str) -> bool {
    syn::parse_str::<syn::File>(text).is_ok()
}

#[test]
fn example_c_expands_to_every_requested_impl() {
    let input = newtype(
        "C",
        "B",
        &[
            "deriving(From, Add(via = i32), Mul(via = i32), Display(via = i32))",
            "transitive(i32 -> A -> B -> C)",
        ],
    );
    let items = impl_deriving_via(&input).unwrap();
    assert_eq!(items.len(), 7);
    assert_eq!(
        code(&items[0]),
        "impl From<B> for C  { fn from(__: B) -> Self { (|__| C(__))(__) } }"
    );
    assert_eq!(
        code(&items[1]),
        "impl ::core::ops::Add for C where Self: ::core::convert::From<<i32 as ::core::ops::Add>::Output>, \
         { type Output = Self; fn add(self, other: Self) -> Self { let lhs: &i32 = &self; let rhs: &i32 = &other; \
         (lhs.to_owned() + rhs.to_owned()).into() } } impl ::core::ops::Sub for C where Self: \
         ::core::convert::From<<i32 as ::core::ops::Sub>::Output>, { type Output = Self; fn sub(self, other: Self) \
         -> Self { let lhs: &i32 = &self; let rhs: &i32 = &other; (lhs.to_owned() - rhs.to_owned()).into() } }"
    );
    assert_eq!(
        code(&items[3]),
        "impl ::core::fmt::Display for C  { fn fmt(&self, f: &mut ::core::fmt::Formatter<'_>) -> \
         ::core::fmt::Result { let de: &i32 = self; write!(f, \"{}\", de) } }"
    );
    assert_eq!(
        code(&items[4]),
        "impl From<i32> for C { fn from(__: i32) -> Self { let __: A = __.into(); let __: B = __.into(); \
         let __: C = __.into(); __ } }"
    );
    assert_eq!(
        code(&items[5]),
        "impl ::core::ops::Deref for C  { type Target = B; fn deref(&self) -> &Self::Target { &self.0 } }"
    );
    assert_eq!(
        code(&items[6]),
        "impl ::core::ops::DerefMut for C  { #[inline] fn deref_mut(&mut self) -> &mut Self::Target { &mut self.0 } }"
    );
    for item in &items {
        assert!(parses_as_items(&code(item)));
    }
}

#[test]
fn plain_struct_gets_deref_and_deref_mut_only() {
    let input = newtype("A", "i32", &[]);
    let items = impl_deriving_via(&input).unwrap();
    assert_eq!(items.len(), 2);
    assert!(code(&items[0]).contains("::core::ops::Deref for A"));
    assert!(code(&items[1]).contains("::core::ops::DerefMut for A"));
}

#[test]
fn other_attributes_are_ignored() {
    let plain = impl_deriving_via(&newtype("B", "A", &["deriving(Display)"])).unwrap();
    let with_doc =
        impl_deriving_via(&newtype("B", "A", &["doc = \"x\"", "deriving(Display)", "allow(dead_code)"])).unwrap();
    assert_eq!(plain.len(), with_doc.len());
    for (a, b) in plain.iter().zip(with_doc.iter()) {
        assert_eq!(code(a), code(b));
    }
    assert_eq!(
        code(&plain[0]),
        "impl ::core::fmt::Display for B  { fn fmt(&self, f: &mut ::core::fmt::Formatter<'_>) -> \
         ::core::fmt::Result { self.0 .fmt(f) } }"
    );
}

#[test]
fn unsupported_derive_is_reported_in_place() {
    let items = impl_deriving_via(&newtype("A", "i32", &["deriving(From, Debugg, Display)"])).unwrap();
    assert_eq!(items.len(), 5);
    assert!(matches!(items[1], Item::Error(ExpandError::UnsupportedDerive)));
    assert!(matches!(items[0], Item::Code(_)));
    assert!(matches!(items[2], Item::Code(_)));
}

#[test]
fn derive_named_by_a_longer_path_is_unsupported() {
    let items = impl_deriving_via(&newtype("A", "i32", &["deriving(core::fmt::Display)"])).unwrap();
    assert!(matches!(items[0], Item::Error(ExpandError::UnsupportedDerive)));
}

#[test]
fn transitive_needs_three_types() {
    let items = impl_deriving_via(&newtype("C", "B", &["transitive(i32 -> C)"])).unwrap();
    assert_eq!(items.len(), 3);
    assert!(matches!(items[0], Item::Error(ExpandError::TransitiveTooShort)));
    assert_eq!(
        ExpandError::TransitiveTooShort.message(),
        "transitive must have three or more types"
    );
}

#[test]
fn transitive_must_end_with_the_input() {
    let items = impl_deriving_via(&newtype("C", "B", &["transitive(i32 -> A -> B)"])).unwrap();
    assert!(matches!(items[0], Item::Error(ExpandError::TransitiveWrongEnd)));
}

#[test]
fn transitive_item_that_is_not_a_type() {
    let items = impl_deriving_via(&newtype("C", "B", &["transitive(i32 -> 1 -> C)"])).unwrap();
    assert!(matches!(items[0], Item::Error(ExpandError::ExpectedType)));
}

#[test]
fn from_iterator_without_via_stops_everything() {
    let r = impl_deriving_via(&newtype("V", "Vec<u8>", &["deriving(From)", "deriving(FromIterator)"]));
    assert!(matches!(r, Err(Abort::FromIteratorWithoutVia)));
    let (msg, help) = Abort::FromIteratorWithoutVia.message();
    assert_eq!(msg, "#[deriving(FromIterator)] is not allowed");
    assert_eq!(help, "Specify via as #[deriving(FromIterator(via: <ItemType>)])");
}

#[test]
fn into_iterator_with_via_stops_everything() {
    let r = impl_deriving_via(&newtype("V", "Vec<u8>", &["deriving(IntoIterator(via: u8))"]));
    assert!(matches!(r, Err(Abort::IntoIteratorWithVia)));
}

#[test]
fn self_as_via_stops_everything() {
    let r = impl_deriving_via(&newtype("V", "u8", &["deriving(Display(self))"]));
    assert!(matches!(r, Err(Abort::SelfReceiver)));
    let (msg, help) = Abort::SelfReceiver.message();
    assert_eq!(msg, "Unexpected token");
    assert_eq!(help, "expected: `via`, got: `self`");
}

#[test]
fn argument_other_than_via_is_reported() {
    let items = impl_deriving_via(&newtype("V", "u8", &["deriving(Display(foo: i32))"])).unwrap();
    match &items[0] {
        Item::Error(e) => {
            assert!(matches!(e, ExpandError::ExpectedVia(p) if p == "foo"));
            assert_eq!(e.message(), "expected: `via`, got: `foo`");
        }
        Item::Code(_) => panic!("expected an error"),
    }
}

#[test]
fn argument_that_is_no_function_argument() {
    let items = impl_deriving_via(&newtype("V", "u8", &["deriving(Display(1))"])).unwrap();
    assert!(matches!(items[0], Item::Error(ExpandError::InvalidArgument)));
}

#[test]
fn via_with_colon_and_with_equals_agree() {
    let colon = impl_deriving_via(&newtype("U", "Id", &["deriving(Display(via: String))"])).unwrap();
    let equals = impl_deriving_via(&newtype("U", "Id", &["deriving(Display(via = String))"])).unwrap();
    assert_eq!(code(&colon[0]), code(&equals[0]));
    assert!(code(&colon[0]).contains("let de: &String = self;"));
}

#[test]
fn keyword_prefix_with_other_name_is_reported() {
    let items = impl_deriving_via(&newtype("A", "i32", &["derivingx(From)"])).unwrap();
    assert!(matches!(items[0], Item::Error(ExpandError::ExpectedKeyword(Keyword::Deriving))));
    assert_eq!(ExpandError::ExpectedKeyword(Keyword::Deriving).message(), "expected `deriving`");
}

#[test]
fn deriving_without_list() {
    let items = impl_deriving_via(&newtype("A", "i32", &["deriving"])).unwrap();
    assert!(matches!(items[0], Item::Error(ExpandError::ExpectedParentheses)));
}

#[test]
fn deriving_followed_by_more_tokens() {
    let items = impl_deriving_via(&newtype("A", "i32", &["deriving(From) extra"])).unwrap();
    assert!(matches!(items[0], Item::Error(ExpandError::UnexpectedToken)));
}

#[test]
fn derive_that_is_not_a_path() {
    let items = impl_deriving_via(&newtype("A", "i32", &["deriving(1)"])).unwrap();
    assert!(matches!(items[0], Item::Error(ExpandError::ExpectedPath)));
}

#[test]
fn enum_input_is_refused_everywhere() {
    let input = DeriveInput {
        ident: "E".to_string(),
        generics: no_generics(),
        data: Data::Enum,
        attrs: vec![attr("deriving(Display)")],
    };
    let items = impl_deriving_via(&input).unwrap();
    assert_eq!(items.len(), 3);
    for item in &items {
        assert!(matches!(item, Item::Error(ExpandError::Fields(FieldsError::NotAStruct))));
    }
    assert_eq!(
        ExpandError::Fields(FieldsError::NotAStruct).message(),
        "input is not a struct: #[derive(DerivingVia)] can only be used with structs"
    );
}

#[test]
fn underlying_field_of_a_generic_struct() {
    let input = DeriveInput {
        ident: "Test".to_string(),
        generics: GenericParts {
            params: "T".to_string(),
            type_params: vec!["T".to_string()],
            impl_generics: "<T>".to_string(),
            ty_generics: "<T>".to_string(),
            where_clause: None,
        },
        data: Data::Struct(vec![
            FieldParts { ident: None, ty: "i32".to_string(), attrs: vec!["underlying".to_string()] },
            tuple_field("std::marker::PhantomData<T>"),
        ]),
        attrs: vec![attr("deriving(Display(via = i32), From)")],
    };
    let items = impl_deriving_via(&input).unwrap();
    assert_eq!(items.len(), 4);
    assert_eq!(
        code(&items[1]),
        "impl<T> From<i32> for Test<T>  { fn from(__: i32) -> Self { (|__| Test { 0: __, 1: Default::default() })(__) } }"
    );
    for item in &items {
        assert!(parses_as_items(&code(item)));
    }
}

#[test]
fn arithmetic_through_a_type_parameter_needs_clone() {
    let input = DeriveInput {
        ident: "W".to_string(),
        generics: GenericParts {
            params: "T".to_string(),
            type_params: vec!["T".to_string()],
            impl_generics: "<T>".to_string(),
            ty_generics: "<T>".to_string(),
            where_clause: Some("T: Copy".to_string()),
        },
        data: Data::Struct(vec![tuple_field("T")]),
        attrs: vec![attr("deriving(AddAssign(via: T))")],
    };
    let items = impl_deriving_via(&input).unwrap();
    let text = code(&items[0]);
    assert_eq!(
        text,
        "impl<T> ::core::ops::AddAssign for W<T> where T: Copy, T: ::core::ops::AddAssign, T: Clone, \
         { fn add_assign(&mut self, rhs: Self) { let lhs: &mut T = self; let rhs: &T = &rhs; \
         lhs.add_assign(rhs.to_owned()); } } impl<T> ::core::ops::SubAssign for W<T> where T: Copy, \
         T: ::core::ops::SubAssign, T: Clone, { fn sub_assign(&mut self, rhs: Self) { let lhs: &mut T = self; \
         let rhs: &T = &rhs; lhs.sub_assign(rhs.to_owned()); } }"
    );
    assert!(parses_as_items(&text));
}

#[test]
fn debug_and_clone_are_not_available() {
    let items = impl_deriving_via(&newtype("A", "i32", &["deriving(Debug, Clone)"])).unwrap();
    assert_eq!(items.len(), 4);
    assert!(matches!(items[0], Item::Error(ExpandError::UnsupportedDerive)));
    assert!(matches!(items[1], Item::Error(ExpandError::UnsupportedDerive)));
}

#[test]
fn multiplication_assignment_through_via() {
    let items = impl_deriving_via(&newtype("C", "B", &["deriving(MulAssign(via = i32))"])).unwrap();
    let text = code(&items[0]);
    assert!(text.contains("lhs.mul_assign(rhs.to_owned());"));
    assert!(text.contains("lhs.div_assign(rhs.to_owned());"));
    assert!(text.contains("::core::ops::MulAssign for C where i32: ::core::ops::MulAssign,"));
    assert!(parses_as_items(&text));
}

#[test]
fn via_assignment_that_is_not_a_type() {
    let items = impl_deriving_via(&newtype("A", "i32", &["deriving(Add(via = 1))"])).unwrap();
    match &items[0] {
        Item::Error(e) => {
            assert!(matches!(e, ExpandError::ExpectedViaType));
            assert_eq!(e.message(), "expected: <Type>");
        }
        Item::Code(_) => panic!("expected an error"),
    }
}

#[test]
fn argument_that_is_neither_form() {
    for arg in ["Add(i32)", "Add(foo = i32)", "Add(via = i32, via = u8)", "Add(via == i32)"] {
        let list = format!("deriving({})", arg);
        let items = impl_deriving_via(&newtype("A", "i32", &[list.as_str()])).unwrap();
        match &items[0] {
            Item::Error(e) => {
                assert!(matches!(e, ExpandError::InvalidArgument), "{}", arg);
                assert_eq!(e.message(), "expected: (via = <Type>)");
            }
            Item::Code(_) => panic!("expected an error for {}", arg),
        }
    }
}

#[test]
fn via_assignment_with_trailing_comma() {
    let with = impl_deriving_via(&newtype("A", "i32", &["deriving(Display(via = i32,))"])).unwrap();
    let without = impl_deriving_via(&newtype("A", "i32", &["deriving(Display(via = i32))"])).unwrap();
    assert_eq!(code(&with[0]), code(&without[0]));
    let generic = impl_deriving_via(&newtype("A", "M", &["deriving(Display(via = HashMap<K, V>))"])).unwrap();
    assert!(code(&generic[0]).contains("let de: &HashMap < K , V > = self;"));
}

#[test]
fn debug_with_a_format_string() {
    let text = custom_debug(&newtype("A", "i32", &[]), "\"A({})\"").unwrap();
    assert_eq!(
        text,
        "impl ::core::fmt::Debug for A  { fn fmt(&self, f: &mut ::core::fmt::Formatter<'_>) -> \
         ::core::fmt::Result { let field = &self.0; write!(f, \"A({})\", field) } }"
    );
    assert!(parses_as_items(&text));
    let mut input = newtype("E", "i32", &[]);
    input.data = Data::Enum;
    assert!(matches!(custom_debug(&input, "\"{}\""), Err(FieldsError::NotAStruct)));
}

#[test]
fn rendering_matches_proc_macro2() {
    for text in [
        "deriving(From, Add(via = i32))",
        "transitive(i32 -> A -> B -> C)",
        "x { } y { a } [1, 2] ::core::fmt::Display 'a' \"s\" 1.5",
        "Foo<'a, T: Clone + 'static> where T: ?Sized",
        "a += b >>= c .. d ..= e => f",
    ] {
        let ts: proc_macro2::TokenStream = text.parse().unwrap();
        let model: Vec<TokenTree> = ts.clone().into_iter().map(convert).collect();
        assert_eq!(render_stream(&model), ts.to_string());
    }
}

fn model(text: &str) -> Vec<TokenTree> {
    let ts: proc_macro2::TokenStream = text.parse().unwrap();
    ts.into_iter().map(convert).collect()
}

#[test]
fn derive_on_the_tokens_of_a_struct() {
    let (input, out) = derive_generalised_newtype_deriving(model(
        "#[derive(DerivingVia)] #[deriving(Display)] pub struct B(A);",
    ))
    .unwrap();
    assert_eq!(input.ident, "B");
    assert_eq!(input.attrs.len(), 2);
    let items = out.unwrap();
    assert_eq!(items.len(), 3);
    assert_eq!(
        code(&items[0]),
        "impl ::core::fmt::Display for B  { fn fmt(&self, f: &mut ::core::fmt::Formatter<'_>) -> \
         ::core::fmt::Result { self.0 .fmt(f) } }"
    );
}

#[test]
fn derive_on_the_tokens_of_a_generic_struct() {
    let (input, out) = derive_generalised_newtype_deriving(model(
        "#[deriving(Display(via = i32), From)] pub struct Test<T>(#[underlying] i32, std::marker::PhantomData<T>);",
    ))
    .unwrap();
    assert_eq!(input.generics.type_params, vec!["T".to_string()]);
    let items = out.unwrap();
    assert!(code(&items[1]).contains("{ 0: __, 1: Default::default() }"));
    for item in &items {
        assert!(parses_as_items(&code(item)));
    }
}

#[test]
fn derive_on_tokens_that_are_no_item() {
    assert!(derive_generalised_newtype_deriving(model("fn f() {}")).is_err());
    assert!(derive_generalised_newtype_deriving(model("struct")).is_err());
}

#[test]
fn invoke_on_the_tokens_of_an_enum() {
    let (name, variants, text) = into_extract(&model("enum AvailableDerives { Display, FromStr }")).unwrap();
    assert_eq!(name, "AvailableDerives");
    assert_eq!(variants.len(), 2);
    assert_eq!(
        text,
        "impl AvailableDerives { fn invoke(self, input: &syn::DeriveInput, via: Option<syn::Type>) -> \
         TokenStream { use AvailableDerives :: *; (match self { Display => display :: extract, \
         FromStr => from_str :: extract })(input, via) } }"
    );
    assert!(into_extract(&model("struct S;")).is_err());
}
