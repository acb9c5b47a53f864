use viking_macros_enum::definition::{
    DirectiveToken, MemberDefinition, PayloadKind, TypeDefinition, TypeKind,
};
use viking_macros_enum::display::rendered_mapping;
use viking_macros_enum::error::{GenerationError, Generator};
use viking_macros_enum::listing::{all_variants_impl_source, derive_enum_vec, member_listing};
use viking_macros_enum::traits::EnumVec;

fn member(name: &str, payload: PayloadKind) -> MemberDefinition {
    MemberDefinition { name: name.to_string(), directives: Vec::new(), payload }
}

fn enum_of(name: &str, members: Vec<MemberDefinition>) -> TypeDefinition {
    TypeDefinition { name: name.to_string(), kind: TypeKind::Enum, directives: Vec::new(), members }
}

#[test]
fn listing_keeps_declaration_order() {
    let def = enum_of(
        "Test",
        vec![
            member("Compleded", PayloadKind::Unit),
            member("NoTested", PayloadKind::Unit),
            member("Aborted", PayloadKind::Unit),
        ],
    );
    assert_eq!(
        member_listing(def).unwrap(),
        vec!["Compleded".to_string(), "NoTested".to_string(), "Aborted".to_string()]
    );
}

#[test]
fn listing_of_an_enum_without_members_is_empty() {
    assert_eq!(member_listing(enum_of("Never", Vec::new())).unwrap(), Vec::<String>::new());
}

#[test]
fn listing_ignores_directives() {
    let mut def = enum_of("Test", vec![member("YesNo", PayloadKind::Unit)]);
    def.directives.push(DirectiveToken::Ident("Cobol".to_string()));
    def.members[0].directives.push(DirectiveToken::Ident("Upper".to_string()));
    assert_eq!(member_listing(def).unwrap(), vec!["YesNo".to_string()]);
}

#[test]
fn listing_fails_on_a_member_with_payload_and_display_does_not() {
    let def = enum_of(
        "Shape",
        vec![
            member("Dot", PayloadKind::Unit),
            member("Circle", PayloadKind::Positional),
            member("Square", PayloadKind::Unit),
        ],
    );
    let expected = GenerationError::NonUnitMember { name: "Circle".to_string(), index: 1 };
    assert_eq!(member_listing(def.clone()), Err(expected.clone()));
    assert_eq!(derive_enum_vec(def.clone()), Err(expected));
    let mapping = rendered_mapping(def).unwrap();
    assert_eq!(mapping.len(), 3);
    assert_eq!(mapping[1].member, "Circle");
    assert_eq!(mapping[1].rendered, "Circle");
}

#[test]
fn listing_names_the_first_member_with_payload() {
    let def = enum_of(
        "Shape",
        vec![
            member("Dot", PayloadKind::Unit),
            member("Rect", PayloadKind::Named),
            member("Circle", PayloadKind::Positional),
        ],
    );
    assert_eq!(
        member_listing(def),
        Err(GenerationError::NonUnitMember { name: "Rect".to_string(), index: 1 })
    );
    let def = enum_of("Shape", vec![member("Circle", PayloadKind::Positional)]);
    assert_eq!(
        member_listing(def),
        Err(GenerationError::NonUnitMember { name: "Circle".to_string(), index: 0 })
    );
}

#[test]
fn listing_of_a_struct_or_union_is_refused() {
    for kind in [TypeKind::Struct, TypeKind::Union] {
        let def = TypeDefinition {
            name: "Point".to_string(),
            kind,
            directives: Vec::new(),
            members: Vec::new(),
        };
        let expected = GenerationError::NotAnEnum { generator: Generator::MemberList };
        assert_eq!(member_listing(def.clone()), Err(expected.clone()));
        assert_eq!(derive_enum_vec(def), Err(expected));
    }
}

#[test]
fn generation_error_messages() {
    assert_eq!(
        GenerationError::NotAnEnum { generator: Generator::MemberList }.message(),
        "Must be of type 'enum'."
    );
    assert_eq!(
        GenerationError::NotAnEnum { generator: Generator::Display }.message(),
        "Must be a enum."
    );
    assert_eq!(
        GenerationError::NonUnitMember { name: "Circle".to_string(), index: 1 }.message(),
        "Must be a unit type i.e. no EnumItemTuple | EnumItemStruct.\n enum Foo { Bar, Baz }"
    );
}

#[test]
fn all_variants_text_for_test() {
    let def = enum_of(
        "Test",
        vec![member("Compleded", PayloadKind::Unit), member("NoTested", PayloadKind::Unit)],
    );
    let source = derive_enum_vec(def).unwrap();
    let expected = "#[automatically_derived]\n\
impl Test {\n    \
    fn all_variants() -> Vec<Self> {\n        \
        vec![\n            \
            Test::Compleded,\n            \
            Test::NoTested,\n        \
        ]\n    \
    }\n\
}\n";
    assert_eq!(source, expected);
}

#[test]
fn all_variants_text_without_members() {
    let source = all_variants_impl_source("Never", &Vec::new());
    let expected = "#[automatically_derived]\n\
impl Never {\n    \
    fn all_variants() -> Vec<Self> {\n        \
        vec![\n        \
        ]\n    \
    }\n\
}\n";
    assert_eq!(source, expected);
}

#[test]
fn all_variants_text_is_an_impl() {
    let names = vec!["A".to_string(), "B".to_string(), "C".to_string()];
    let source = all_variants_impl_source("Letters", &names);
    let item: syn::ItemImpl = syn::parse_str(&source).unwrap();
    assert_eq!(item.items.len(), 1);
    assert_eq!(source.matches("Letters::").count(), 3);
}

#[derive(Debug, PartialEq)]
enum Answer {
    Yes,
    No,
}

impl EnumVec for Answer {
    fn all_variants() -> Vec<Self> {
        vec![Answer::Yes, Answer::No]
    }
}

#[test]
fn enum_vec_can_be_implemented() {
    assert_eq!(Answer::all_variants(), vec![Answer::Yes, Answer::No]);
}
