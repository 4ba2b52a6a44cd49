use multer_derive::derive::{
    derive_from_multipart, get_fields_attributes, valid_field_name, AttributeInput, DeriveError,
    MemberInput, RecordInput, Shape,
};
use multer_derive::directive::DirectiveError;

fn attribute(path: &str, arguments: &str) -> AttributeInput {
    AttributeInput {
        path: path.to_owned(),
        arguments: arguments.to_owned(),
    }
}

fn member(name: &str, ty: &str, attributes: Vec<AttributeInput>) -> MemberInput {
    MemberInput {
        name: name.to_owned(),
        ty: ty.to_owned(),
        attributes,
    }
}

fn input(shape: Shape, members: Vec<MemberInput>) -> RecordInput {
    RecordInput {
        name: "MyStruct".to_owned(),
        impl_generics: String::new(),
        ty_generics: String::new(),
        where_clause: String::new(),
        shape,
        members,
    }
}

#[test]
fn members_keep_their_order_and_names() {
    let derivation = derive_from_multipart(&input(
        Shape::Named,
        vec![
            member("text", "String", vec![]),
            member("number", "u32", vec![]),
            member("boolean", "bool", vec![]),
            member("character", "char", vec![]),
            member("photo", "FormFile", vec![]),
            member("all_files", "Vec<FormFile>", vec![]),
        ],
    ))
    .unwrap();
    let plans: Vec<(&str, &str, &str, Option<&str>)> = derivation
        .members
        .iter()
        .map(|p| (p.member.as_str(), p.ty.as_str(), p.match_name.as_str(), p.with.as_deref()))
        .collect();
    assert_eq!(
        plans,
        vec![
            ("text", "String", "text", None),
            ("number", "u32", "number", None),
            ("boolean", "bool", "boolean", None),
            ("character", "char", "character", None),
            ("photo", "FormFile", "photo", None),
            ("all_files", "Vec<FormFile>", "all_files", None),
        ]
    );
    assert_eq!(derivation.name, "MyStruct");
}

#[test]
fn rename_swaps_the_names_that_members_are_matched_against() {
    let derivation = derive_from_multipart(&input(
        Shape::Named,
        vec![
            member("text", "String", vec![attribute("multer", "rename = \"number\"")]),
            member("number", "u32", vec![attribute("multer", "rename = \"text\"")]),
        ],
    ))
    .unwrap();
    assert_eq!(derivation.members[0].member, "text");
    assert_eq!(derivation.members[0].match_name, "number");
    assert_eq!(derivation.members[1].member, "number");
    assert_eq!(derivation.members[1].match_name, "text");
}

#[test]
fn rename_to_a_list_name() {
    let derivation = derive_from_multipart(&input(
        Shape::Named,
        vec![
            member("text", "String", vec![attribute("multer", "rename = \"number\"")]),
            member("files", "Vec<FormFile>", vec![attribute("multer", "rename = \"file[]\"")]),
        ],
    ))
    .unwrap();
    assert_eq!(derivation.members[1].match_name, "file[]");
}

#[test]
fn with_names_the_function_and_keeps_the_declared_name() {
    let derivation = derive_from_multipart(&input(
        Shape::Named,
        vec![
            member("text", "String", vec![]),
            member(
                "other",
                "OtherType",
                vec![attribute("multer", "with = \"utils::other_from_multipart\"")],
            ),
            member(
                "third",
                "Third",
                vec![attribute("multer", "with = \"third\", rename = \"3rd\"")],
            ),
        ],
    ));
    // `3rd` is no field name.
    assert_eq!(derivation.unwrap_err(), DeriveError::InvalidRename { member: 2 });

    let derivation = derive_from_multipart(&input(
        Shape::Named,
        vec![
            member("text", "String", vec![]),
            member(
                "other",
                "OtherType",
                vec![attribute("multer", "with = \"utils::other_from_multipart\"")],
            ),
            member(
                "third",
                "Third",
                vec![attribute("multer", "with = \"third\", rename = \"rd3\"")],
            ),
        ],
    ))
    .unwrap();
    assert_eq!(derivation.members[1].match_name, "other");
    assert_eq!(derivation.members[1].with.as_deref(), Some("utils::other_from_multipart"));
    assert_eq!(derivation.members[2].match_name, "rd3");
    assert_eq!(derivation.members[2].with.as_deref(), Some("third"));
}

#[test]
fn only_records_are_derived() {
    assert_eq!(
        derive_from_multipart(&input(Shape::Enum, vec![])).unwrap_err(),
        DeriveError::NotAStruct
    );
    assert_eq!(
        derive_from_multipart(&input(Shape::Union, vec![])).unwrap_err(),
        DeriveError::NotAStruct
    );
    assert_eq!(
        derive_from_multipart(&input(Shape::Tuple, vec![])).unwrap_err(),
        DeriveError::UnnamedMembers
    );
    assert_eq!(
        derive_from_multipart(&input(Shape::Unit, vec![])).unwrap_err(),
        DeriveError::UnnamedMembers
    );
    assert!(derive_from_multipart(&input(Shape::Named, vec![]))
        .unwrap()
        .members
        .is_empty());
}

#[test]
fn invalid_rename() {
    let derived = derive_from_multipart(&input(
        Shape::Named,
        vec![
            member("text", "String", vec![attribute("multer", "rename = \"1\"")]),
            member("number", "u32", vec![attribute("multer", "rename = \"$number\"")]),
        ],
    ));
    assert_eq!(derived.unwrap_err(), DeriveError::InvalidRename { member: 0 });

    let derived = derive_from_multipart(&input(
        Shape::Named,
        vec![
            member("text", "String", vec![]),
            member("number", "u32", vec![attribute("multer", "rename = \"$number\"")]),
        ],
    ));
    assert_eq!(derived.unwrap_err(), DeriveError::InvalidRename { member: 1 });
}

#[test]
fn invalid_with() {
    for path in ["", "1bad", "a b", "a::", "a::1", "f()", "a + b"] {
        let derived = derive_from_multipart(&input(
            Shape::Named,
            vec![
                member("text", "String", vec![]),
                member("other", "Other", vec![attribute("multer", &format!("with = \"{path}\""))]),
            ],
        ));
        assert_eq!(derived.unwrap_err(), DeriveError::InvalidWith { member: 1 }, "{path:?}");
    }
    for path in ["f", "a::b", "::a::b", "crate::convert::f", "a::<T>::b", "self::f"] {
        let derived = derive_from_multipart(&input(
            Shape::Named,
            vec![member("other", "Other", vec![attribute("multer", &format!("with = \"{path}\""))])],
        ));
        assert_eq!(derived.unwrap().members[0].with.as_deref(), Some(path));
    }
}

#[test]
fn the_first_fault_wins() {
    // A malformed directive is found before any invalid value.
    let derived = derive_from_multipart(&input(
        Shape::Named,
        vec![
            member("a", "A", vec![attribute("multer", "rename = \"1\"")]),
            member("b", "B", vec![attribute("multer", "rename")]),
        ],
    ));
    assert_eq!(
        derived.unwrap_err(),
        DeriveError::Directive {
            member: 1,
            error: DirectiveError::ExpectedEquals { at: 6 }
        }
    );
    // Of one member the rename is checked before the function.
    let derived = derive_from_multipart(&input(
        Shape::Named,
        vec![member("a", "A", vec![attribute("multer", "with = \"1\", rename = \"1\"")])],
    ));
    assert_eq!(derived.unwrap_err(), DeriveError::InvalidRename { member: 0 });
}

#[test]
fn other_annotations_are_passed_over_and_the_last_directives_count() {
    let members = vec![
        member(
            "a",
            "A",
            vec![
                attribute("doc", "this is not even = \"directives\" )("),
                attribute("multer", "rename = \"first\""),
                attribute("serde", "rename = \"other\""),
                attribute("multer", "with = \"f\""),
            ],
        ),
        member("b", "B", vec![attribute("allow", "unused")]),
    ];
    let attributes = get_fields_attributes(&members).unwrap();
    assert_eq!(attributes.len(), 2);
    let first = attributes[0].as_ref().unwrap();
    assert_eq!(first.rename, None);
    assert_eq!(first.with.as_deref(), Some("f"));
    assert!(attributes[1].is_none());

    let faulty = vec![member(
        "a",
        "A",
        vec![
            attribute("multer", "rename = 1"),
            attribute("multer", "rename = \"fine\""),
        ],
    )];
    assert_eq!(
        get_fields_attributes(&faulty).unwrap_err(),
        DeriveError::Directive {
            member: 0,
            error: DirectiveError::ExpectedLiteral { at: 9 }
        }
    );
}

#[test]
fn field_names() {
    for name in ["age", "_x", "first-name", "files[]", "user[name]", "a.b", "x1", "naïve", "日本"] {
        assert!(valid_field_name(name), "{name:?}");
    }
    for name in ["", "1", "1x", "$number", "-x", ".x", "[]", "a b", "a\"b", "a=b", "a,b", "a+b", " a"] {
        assert!(!valid_field_name(name), "{name:?}");
    }
}

#[test]
fn emitted_source() {
    let derivation = derive_from_multipart(&RecordInput {
        name: "Person".to_owned(),
        impl_generics: "<'a, T: Clone>".to_owned(),
        ty_generics: "<'a, T>".to_owned(),
        where_clause: "where T: Send".to_owned(),
        shape: Shape::Named,
        members: vec![
            member("name", "Name", vec![attribute("multer", "with = \"name_from_multipart\"")]),
            member("is_married", "bool", vec![attribute("multer", "rename = \"married\"")]),
            member("files", "Vec<FormFile>", vec![attribute("multer", "rename = \"files[]\"")]),
        ],
    })
    .unwrap();
    let expected = "#[automatically_derived]\n\
impl<'a, T: Clone> ::multer_derive::FromMultipart for Person<'a, T> where T: Send {\n    \
fn from_multipart(multipart: &::multer_derive::MultipartForm, _ctx: ::multer_derive::FormContext<'_>) -> ::core::result::Result<Self, ::multer_derive::Error> {\n        \
let name = name_from_multipart(multipart, ::multer_derive::FormContext { field_name: ::core::option::Option::Some(\"name\") })?;\n        \
let is_married = <bool as ::multer_derive::FromMultipart>::from_multipart(multipart, ::multer_derive::FormContext { field_name: ::core::option::Option::Some(\"married\") })?;\n        \
let files = <Vec<FormFile> as ::multer_derive::FromMultipart>::from_multipart(multipart, ::multer_derive::FormContext { field_name: ::core::option::Option::Some(\"files[]\") })?;\n        \
::core::result::Result::Ok(Self { name, is_married, files, })\n    \
}\n\
}\n";
    assert_eq!(derivation.emit(), expected);
    assert!(syn::parse_str::<syn::ItemImpl>(&derivation.emit()).is_ok());
}

#[test]
fn emitted_source_of_a_record_without_members() {
    let derivation = derive_from_multipart(&input(Shape::Named, vec![])).unwrap();
    let text = derivation.emit();
    assert!(text.contains("impl ::multer_derive::FromMultipart for MyStruct  {\n"));
    assert!(text.ends_with("        ::core::result::Result::Ok(Self { })\n    }\n}\n"));
    assert!(syn::parse_str::<syn::ItemImpl>(&text).is_ok());
}
