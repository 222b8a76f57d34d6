use builder::ast::{AttrValue, Attribute, FieldDescriptor, RecordDescriptor, TypeExpr};
use builder::attr::{parse_each, AttrParse};
use builder::classify::{classify, Category, DiagKind};
use builder::dynamic::{BuiltValue, DynBuilder, SetterArg};
use builder::schema::{classify_record, InitKind, ReadKind, SetterKind};

fn ty(text: &str, segments: &[&str], args: &[&str]) -> TypeExpr {
    TypeExpr {
        text: text.to_string(),
        segments: segments.iter().map(|s| s.to_string()).collect(),
        args: args.iter().map(|s| s.to_string()).collect(),
    }
}

fn field(name: &str, t: TypeExpr) -> FieldDescriptor {
    FieldDescriptor { name: name.to_string(), ty: t, attrs: vec![] }
}

fn each_attr(each: &str) -> Attribute {
    Attribute {
        path: "builder".to_string(),
        key: Some("each".to_string()),
        value: AttrValue::StrLit(each.to_string()),
    }
}

fn field_each(name: &str, t: TypeExpr, each: &str) -> FieldDescriptor {
    FieldDescriptor { name: name.to_string(), ty: t, attrs: vec![each_attr(each)] }
}

fn command_record() -> RecordDescriptor {
    RecordDescriptor {
        name: "Command".to_string(),
        fields: vec![
            field("executable", ty("String", &["String"], &[])),
            field_each("args", ty("Vec<String>", &["Vec"], &["String"]), "arg"),
            field_each("env", ty("Vec<String>", &["Vec"], &["String"]), "env"),
            field("current_dir", ty("Option<String>", &["Option"], &["String"])),
        ],
    }
}

fn one(s: &str) -> SetterArg {
    SetterArg::One(s.to_string())
}

#[test]
fn parse() {
    let f = field_each("args", ty("Vec<String>", &["Vec"], &["String"]), "arg");
    match parse_each(&f.attrs) {
        AttrParse::Each(name) => assert_eq!(name, "arg"),
        _ => panic!("expected an element-setter name"),
    }
    let plain = field("executable", ty("String", &["String"], &[]));
    assert!(matches!(parse_each(&plain.attrs), AttrParse::NoCollection));
    let ignored = FieldDescriptor {
        name: "x".to_string(),
        ty: ty("String", &["String"], &[]),
        attrs: vec![Attribute {
            path: "serde".to_string(),
            key: Some("rename".to_string()),
            value: AttrValue::StrLit("y".to_string()),
        }],
    };
    assert!(matches!(parse_each(&ignored.attrs), AttrParse::NoCollection));
    let bad = FieldDescriptor {
        name: "x".to_string(),
        ty: ty("Vec<String>", &["Vec"], &["String"]),
        attrs: vec![Attribute {
            path: "builder".to_string(),
            key: Some("oops".to_string()),
            value: AttrValue::StrLit("y".to_string()),
        }],
    };
    assert!(matches!(parse_each(&bad.attrs), AttrParse::BadKey));
}

#[test]
fn create_builder() {
    let out = builder::schema::derive(&command_record());
    assert_eq!(out.schema.builder_name, "CommandBuilder");
    assert_eq!(out.schema.target_name, "Command");
    assert_eq!(out.schema.fields.len(), 4);
    assert_eq!(
        out.schema.fields[0].category,
        Category::Required
    );
    assert_eq!(
        out.schema.fields[1].category,
        Category::Collection { inner: "String".to_string(), each: "arg".to_string() }
    );
    assert_eq!(
        out.schema.fields[2].category,
        Category::Collection { inner: "String".to_string(), each: "env".to_string() }
    );
    assert_eq!(
        out.schema.fields[3].category,
        Category::Optional { inner: "String".to_string() }
    );
    assert!(out.diagnostics.is_empty());

    // Storage: declared type for required/collection slots, inner type for
    // optional slots.
    assert_eq!(out.storage.len(), 4);
    assert_eq!(out.storage[0].stored_type, "String");
    assert_eq!(out.storage[1].stored_type, "Vec<String>");
    assert_eq!(out.storage[3].name, "current_dir");
    assert_eq!(out.storage[3].stored_type, "String");

    // Initializers: collections pre-populated, everything else empty.
    assert!(matches!(out.inits[0].kind, InitKind::Empty));
    assert!(matches!(out.inits[1].kind, InitKind::EmptyCollection));
    assert!(matches!(out.inits[2].kind, InitKind::EmptyCollection));
    assert!(matches!(out.inits[3].kind, InitKind::Empty));

    // Build-time reads.
    assert!(matches!(out.reads[0].kind, ReadKind::RequireSet));
    assert!(matches!(out.reads[1].kind, ReadKind::RequireSet));
    assert!(matches!(out.reads[3].kind, ReadKind::UnwrapOrAbsent));
}

#[test]
fn call_setters() {
    let (schema, diags) = classify_record(&command_record());
    assert!(diags.is_empty());
    let mut b = DynBuilder::new(schema);
    assert!(b.call_setter(&"executable".to_string(), one("cat")));
    assert!(b.call_setter(&"arg".to_string(), one("-l")));
    assert!(!b.call_setter(&"no_such_setter".to_string(), one("x")));
    // A bulk argument does not fit a required field's setter.
    assert!(!b.call_setter(&"executable".to_string(), SetterArg::Many(vec![])));
}

#[test]
fn call_build() {
    let (schema, _) = classify_record(&command_record());
    let mut b = DynBuilder::new(schema);
    let before = b.build();
    match before {
        Err(e) => assert_eq!(e.missing, vec!["executable".to_string()]),
        Ok(_) => panic!("build must fail while a required field is unset"),
    }
    assert!(b.call_setter(&"executable".to_string(), one("cat")));
    let after = b.build().expect("all required fields are set");
    assert_eq!(after.name, "Command");
    assert_eq!(after.fields[0].name, "executable");
    assert_eq!(after.fields[0].value, BuiltValue::Single("cat".to_string()));
}

#[test]
fn method_chaining() {
    let (schema, _) = classify_record(&command_record());
    let mut b = DynBuilder::new(schema);
    // Each setter call reports acceptance, so calls can follow one another.
    assert!(b.call_setter(&"executable".to_string(), one("cat")));
    assert!(b.call_setter(&"arg".to_string(), one("-l")));
    assert!(b.call_setter(&"arg".to_string(), one("-a")));
    assert!(b.call_setter(&"current_dir".to_string(), one("/tmp")));
    assert!(b.build().is_ok());
}

#[test]
fn optional_field() {
    let (schema, _) = classify_record(&command_record());
    let mut b = DynBuilder::new(schema);
    assert!(b.call_setter(&"executable".to_string(), one("cat")));
    let unset = b.build().unwrap();
    assert_eq!(unset.fields[3].name, "current_dir");
    assert_eq!(unset.fields[3].value, BuiltValue::Absent);
    // Setting it stores the inner value, wrapped exactly once.
    assert!(b.call_setter(&"current_dir".to_string(), one("/tmp")));
    let set = b.build().unwrap();
    assert_eq!(set.fields[3].value, BuiltValue::Present("/tmp".to_string()));
}

#[test]
fn repeated_field() {
    let (schema, _) = classify_record(&command_record());
    let mut b = DynBuilder::new(schema);
    assert!(b.call_setter(&"executable".to_string(), one("cat")));
    assert!(b.call_setter(&"arg".to_string(), one("-l")));
    assert!(b.call_setter(&"arg".to_string(), one("-a")));
    let built = b.build().unwrap();
    assert_eq!(
        built.fields[1].value,
        BuiltValue::Many(vec!["-l".to_string(), "-a".to_string()])
    );
    // A collection never appended to builds as an empty collection.
    assert_eq!(built.fields[2].value, BuiltValue::Many(vec![]));
}

#[test]
fn unrecognized_attribute() {
    let rec = RecordDescriptor {
        name: "Command".to_string(),
        fields: vec![
            field("executable", ty("String", &["String"], &[])),
            FieldDescriptor {
                name: "args".to_string(),
                ty: ty("Vec<String>", &["Vec"], &["String"]),
                attrs: vec![Attribute {
                    path: "builder".to_string(),
                    key: Some("each".to_string()),
                    value: AttrValue::StrLit("arg".to_string()),
                }],
            },
        ],
    };
    // "each" here is the recognized key; misspell it.
    let mut rec = rec;
    rec.fields[1].attrs[0].key = Some("oops".to_string());
    let out = builder::schema::derive(&rec);
    assert_eq!(out.diagnostics.len(), 1);
    assert_eq!(out.diagnostics[0].field, "args");
    assert_eq!(out.diagnostics[0].kind, DiagKind::AttributeSyntax);
    assert_eq!(
        out.diagnostics[0].message(),
        "expected `builder(each = \"...\")`"
    );
    // Every other field is still classified and emitted normally.
    assert_eq!(out.schema.fields.len(), 1);
    assert_eq!(out.schema.fields[0].name, "executable");
    assert_eq!(out.storage.len(), 1);
    assert_eq!(out.setters.len(), 1);
}

#[test]
fn redefined_prelude_types() {
    // Matching is purely syntactic on the outermost identifier: a fully
    // qualified path is not a single identifier and classifies as Required,
    // while a bare `Option` with one argument is Optional whatever it
    // resolves to.
    let qualified = field(
        "a",
        ty(
            "std::option::Option<String>",
            &["std", "option", "Option"],
            &["String"],
        ),
    );
    match classify(&qualified) {
        Ok(c) => assert_eq!(c.category, Category::Required),
        Err(_) => panic!("a qualified path classifies without a diagnostic"),
    }
    let bare = field("b", ty("Option<String>", &["Option"], &["String"]));
    match classify(&bare) {
        Ok(c) => assert_eq!(
            c.category,
            Category::Optional { inner: "String".to_string() }
        ),
        Err(_) => panic!("a bare Option classifies without a diagnostic"),
    }
}

#[test]
fn command_end_to_end() {
    let out = builder::schema::derive(&command_record());
    assert!(out.diagnostics.is_empty());
    let mut b = DynBuilder::new(out.schema);
    assert!(b.call_setter(&"executable".to_string(), one("cat")));
    assert!(b.call_setter(&"arg".to_string(), one("-l")));
    assert!(b.call_setter(&"arg".to_string(), one("-a")));
    let built = b.build().expect("executable is set and collections default");
    assert_eq!(built.name, "Command");
    assert_eq!(built.fields[0].value, BuiltValue::Single("cat".to_string()));
    assert_eq!(
        built.fields[1].value,
        BuiltValue::Many(vec!["-l".to_string(), "-a".to_string()])
    );
    assert_eq!(built.fields[2].value, BuiltValue::Many(vec![]));
    assert_eq!(built.fields[3].value, BuiltValue::Absent);
}

#[test]
fn same_name_collection_single_setter() {
    // The element-setter name "env" equals the field's own name: only the
    // element-wise setter exists, and calling it appends rather than
    // replacing.
    let out = builder::schema::derive(&command_record());
    let env_setters: Vec<_> = out.setters.iter().filter(|s| s.field == "env").collect();
    assert_eq!(env_setters.len(), 1);
    assert!(matches!(env_setters[0].kind, SetterKind::Append));
    assert_eq!(env_setters[0].method, "env");

    // The distinct name "arg" leaves both setters for the args field.
    let args_setters: Vec<_> = out.setters.iter().filter(|s| s.field == "args").collect();
    assert_eq!(args_setters.len(), 2);
    assert!(matches!(args_setters[0].kind, SetterKind::Append));
    assert!(matches!(args_setters[1].kind, SetterKind::Replace));

    let mut b = DynBuilder::new(out.schema);
    assert!(b.call_setter(&"executable".to_string(), one("sh")));
    assert!(b.call_setter(&"env".to_string(), one("A=1")));
    assert!(b.call_setter(&"env".to_string(), one("B=2")));
    let built = b.build().unwrap();
    assert_eq!(
        built.fields[2].value,
        BuiltValue::Many(vec!["A=1".to_string(), "B=2".to_string()])
    );
}

#[test]
fn type_shape_error() {
    let bad = field_each("args", ty("String", &["String"], &[]), "arg");
    match classify(&bad) {
        Err(d) => {
            assert_eq!(d.kind, DiagKind::TypeShape);
            assert_eq!(d.field, "args");
            assert_eq!(
                d.message(),
                "expected a `Vec<...>` type under `builder(each = \"...\")`"
            );
        },
        Ok(_) => panic!("an element setter on a non-Vec type must be rejected"),
    }
}

#[test]
fn classify_idempotent() {
    let f = field_each("args", ty("Vec<String>", &["Vec"], &["String"]), "arg");
    let first = classify(&f).unwrap();
    let second = classify(&f).unwrap();
    assert_eq!(first.category, second.category);
    assert_eq!(first.name, second.name);
}

#[test]
fn bulk_setter_replaces_collection() {
    let (schema, _) = classify_record(&command_record());
    let mut b = DynBuilder::new(schema);
    assert!(b.call_setter(&"executable".to_string(), one("cat")));
    assert!(b.call_setter(&"arg".to_string(), one("stale")));
    assert!(b.call_setter(
        &"args".to_string(),
        SetterArg::Many(vec!["-x".to_string(), "-y".to_string()])
    ));
    let built = b.build().unwrap();
    assert_eq!(
        built.fields[1].value,
        BuiltValue::Many(vec!["-x".to_string(), "-y".to_string()])
    );
}

#[test]
fn missing_fields_all_named() {
    let rec = RecordDescriptor {
        name: "Pair".to_string(),
        fields: vec![
            field("first", ty("String", &["String"], &[])),
            field("second", ty("String", &["String"], &[])),
        ],
    };
    let (schema, _) = classify_record(&rec);
    let mut b = DynBuilder::new(schema);
    match b.build() {
        Err(e) => assert_eq!(
            e.missing,
            vec!["first".to_string(), "second".to_string()]
        ),
        Ok(_) => panic!("both required fields are unset"),
    }
    assert!(b.call_setter(&"second".to_string(), one("two")));
    match b.build() {
        Err(e) => assert_eq!(e.missing, vec!["first".to_string()]),
        Ok(_) => panic!("one required field is still unset"),
    }
}

#[test]
fn setter_name_collision_detected() {
    // An element-setter name colliding with another field's setter is
    // detected, so a caller can reject the input instead of splicing a
    // builder that defines one method twice.
    let rec = RecordDescriptor {
        name: "Conf".to_string(),
        fields: vec![
            field_each("items", ty("Vec<String>", &["Vec"], &["String"]), "item"),
            field("item", ty("String", &["String"], &[])),
        ],
    };
    let out = builder::schema::derive(&rec);
    assert!(!builder::schema::distinct_setter_methods(&out.setters));
    let ok = builder::schema::derive(&command_record());
    assert!(builder::schema::distinct_setter_methods(&ok.setters));
}

#[test]
fn non_literal_each_value_skipped() {
    // An `each` bound to a non-literal value is passed over, so the field
    // proceeds as non-collection; being `Vec`-shaped, it is Required.
    let f = FieldDescriptor {
        name: "args".to_string(),
        ty: ty("Vec<String>", &["Vec"], &["String"]),
        attrs: vec![Attribute {
            path: "builder".to_string(),
            key: Some("each".to_string()),
            value: AttrValue::NotStr,
        }],
    };
    assert!(matches!(parse_each(&f.attrs), AttrParse::NoCollection));
    match classify(&f) {
        Ok(c) => assert_eq!(c.category, Category::Required),
        Err(_) => panic!("a skipped attribute yields no diagnostic"),
    }
}
