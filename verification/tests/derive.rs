use js_object_derive::ast::{AttrBody, Attribute, Field, Ident, Record, RecordData, Span};
use js_object_derive::diagnostic::DiagnosticKind;
use js_object_derive::object_derive;
use js_object_derive::object_derive::{derive_impl, ObjectType};
use js_object_derive::{decl_derive, expression_derive, statement_derive};

fn sp(n: u32) -> Span {
    Span { lo: n, hi: n + 1 }
}

fn ident(name: &str, at: u32) -> Ident {
    Ident { name: name.to_string(), span: sp(at) }
}

fn kind_attr(variant: &str, at: u32) -> Attribute {
    Attribute {
        path: vec!["object_type".to_string()],
        body: AttrBody::Idents(vec![ident(variant, at + 100)]),
        span: sp(at),
    }
}

fn marker_attr(at: u32) -> Attribute {
    Attribute { path: vec!["properties".to_string()], body: AttrBody::Absent, span: sp(at) }
}

fn field(name: &str, ty: &str, attrs: Vec<Attribute>, at: u32) -> Field {
    Field { name: ident(name, at), ty: ty.to_string(), attrs }
}

fn named_record(name: &str, attrs: Vec<Attribute>, fields: Vec<Field>) -> Record {
    Record {
        ident: ident(name, 1),
        attrs,
        data: RecordData::NamedFields { fields, list_span: sp(2) },
        span: sp(3),
    }
}

#[test]
fn happy_path_implicit_store() {
    let record = named_record(
        "JsString",
        vec![kind_attr("String", 10)],
        vec![field("properties", "Map<String, Value>", vec![], 20)],
    );
    let emitted = derive_impl(&record).expect("record must be accepted");
    assert_eq!(emitted.name.name, "JsString");
    assert_eq!(emitted.store.name, "properties");
    assert_eq!(emitted.kind, ObjectType::Str);
    let code = object_derive(&record).expect("record must be accepted");
    assert!(code.starts_with("impl crate::runtime::Object for JsString {"));
    assert!(code.contains("self.properties.insert(name, value);"));
    assert!(code.contains("crate::runtime::ObjectType::String"));
}

#[test]
fn happy_path_explicit_store() {
    let record = named_record(
        "JsArray",
        vec![kind_attr("Array", 10)],
        vec![
            field("len", "u32", vec![], 20),
            field("table", "Map<String, Value>", vec![marker_attr(30)], 40),
        ],
    );
    let emitted = derive_impl(&record).expect("record must be accepted");
    assert_eq!(emitted.store.name, "table");
    assert_eq!(emitted.kind, ObjectType::Array);
    let code = object_derive(&record).expect("record must be accepted");
    assert!(code.contains("self.table.insert(name, value);"));
    assert!(code.contains("self.table.get(name).cloned()"));
    assert!(code.contains("crate::runtime::ObjectType::Array"));
}

#[test]
fn rendered_block_golden() {
    let record = named_record(
        "JsString",
        vec![kind_attr("String", 10)],
        vec![field("properties", "Map<String, Value>", vec![], 20)],
    );
    let code = object_derive(&record).expect("record must be accepted");
    let expected = [
        "impl crate::runtime::Object for ",
        "JsString",
        " {\n    fn put(&mut self, name: String, value: crate::runtime::Value) {\n        self.",
        "properties",
        ".insert(name, value);\n    }\n\n    fn get(&self, name: &str) -> Option<crate::runtime::Value> {\n        self.",
        "properties",
        ".get(name).cloned()\n    }\n\n    fn get_mut(&mut self, name: &str) -> Option<&mut crate::runtime::Value> {\n        self.",
        "properties",
        ".get_mut(name)\n    }\n\n    fn get_type(&self) -> crate::runtime::ObjectType {\n        crate::runtime::ObjectType::",
        "String",
        "\n    }\n\n    fn as_any(&mut self) -> &mut dyn std::any::Any {\n        self\n    }\n\n    fn into_object(self: Box<Self>) -> Box<dyn crate::runtime::Object> {\n        self as Box<dyn crate::runtime::Object>\n    }\n\n    fn format_properties(&self) -> String {\n        let mut buf = String::new();\n        buf += \"{\\n\";\n        for (k, v) in self.",
        "properties",
        ".iter() {\n            buf += \"    \";\n            buf += k;\n            buf += \": \";\n            buf += &v.to_string();\n            buf += \"\\n\";\n        }\n        buf += \"}\";\n        buf\n    }\n}\n",
    ]
    .concat();
    assert_eq!(code, expected);
}

#[test]
fn emitting_twice_is_identical() {
    let record = named_record(
        "JsArray",
        vec![kind_attr("Array", 10)],
        vec![
            field("len", "u32", vec![], 20),
            field("table", "Map<String, Value>", vec![marker_attr(30)], 40),
        ],
    );
    let first = object_derive(&record).expect("record must be accepted");
    let second = object_derive(&record).expect("record must be accepted");
    assert_eq!(first, second);
}

#[test]
fn missing_kind_attribute() {
    let record = named_record(
        "Orphan",
        vec![],
        vec![field("properties", "Map<String, Value>", vec![], 20)],
    );
    let d = derive_impl(&record).expect_err("record must be rejected");
    assert_eq!(d.kind, DiagnosticKind::MissingKindAttribute);
    assert_eq!(d.span, sp(1));
    assert_eq!(d.message(), "could not find #[object_type(<type>)] attribute");
}

#[test]
fn unknown_variant() {
    let record = named_record(
        "P",
        vec![kind_attr("Prototype", 10)],
        vec![field("properties", "Map<String, Value>", vec![], 20)],
    );
    let d = derive_impl(&record).expect_err("record must be rejected");
    assert_eq!(d.kind, DiagnosticKind::UnknownVariant);
    assert_eq!(d.span, sp(110));
    assert_eq!(d.message(), "Must match variant");
}

#[test]
fn missing_store_on_empty_record() {
    let record = named_record("Empty", vec![kind_attr("Object", 10)], vec![]);
    let d = derive_impl(&record).expect_err("record must be rejected");
    assert_eq!(d.kind, DiagnosticKind::MissingStore);
    assert_eq!(d.span, sp(2));
    assert_eq!(d.message(), "Could not find object store in fields");
}

#[test]
fn missing_store_without_candidates() {
    let record = named_record(
        "Plain",
        vec![kind_attr("Object", 10)],
        vec![field("len", "u32", vec![], 20), field("cap", "u32", vec![], 30)],
    );
    let d = derive_impl(&record).expect_err("record must be rejected");
    assert_eq!(d.kind, DiagnosticKind::MissingStore);
    assert_eq!(d.span, sp(2));
}

#[test]
fn unsupported_shape_tuple() {
    let record = Record {
        ident: ident("Tuple", 1),
        attrs: vec![kind_attr("Object", 10)],
        data: RecordData::TupleFields,
        span: sp(3),
    };
    let d = derive_impl(&record).expect_err("record must be rejected");
    assert_eq!(d.kind, DiagnosticKind::UnsupportedShape);
    assert_eq!(d.span, sp(3));
    assert_eq!(d.message(), "expected a struct with named fields");
}

#[test]
fn unsupported_shape_enumeration() {
    let record = Record {
        ident: ident("Node", 1),
        attrs: vec![kind_attr("Object", 10)],
        data: RecordData::Enumeration,
        span: sp(3),
    };
    let d = derive_impl(&record).expect_err("record must be rejected");
    assert_eq!(d.kind, DiagnosticKind::UnsupportedShape);
}

#[test]
fn ambiguous_store_two_markers() {
    let record = named_record(
        "Twice",
        vec![kind_attr("Object", 10)],
        vec![
            field("first", "Map<String, Value>", vec![marker_attr(30)], 20),
            field("second", "Map<String, Value>", vec![marker_attr(50)], 40),
        ],
    );
    let d = derive_impl(&record).expect_err("record must be rejected");
    assert_eq!(d.kind, DiagnosticKind::AmbiguousStore);
    assert_eq!(d.span, sp(50));
    assert_eq!(d.message(), "more than one field is marked as the object store");
}

#[test]
fn marker_wins_over_name_convention() {
    let record = named_record(
        "Both",
        vec![kind_attr("Object", 10)],
        vec![
            field("properties", "Map<String, Value>", vec![], 20),
            field("table", "Map<String, Value>", vec![marker_attr(30)], 40),
        ],
    );
    let emitted = derive_impl(&record).expect("record must be accepted");
    assert_eq!(emitted.store.name, "table");
}

#[test]
fn marker_and_name_on_same_field() {
    let record = named_record(
        "Same",
        vec![kind_attr("Object", 10)],
        vec![field("properties", "Map<String, Value>", vec![marker_attr(30)], 20)],
    );
    let emitted = derive_impl(&record).expect("record must be accepted");
    assert_eq!(emitted.store.name, "properties");
}

#[test]
fn unrelated_field_attributes_are_tolerated() {
    let record = named_record(
        "Lax",
        vec![kind_attr("Object", 10)],
        vec![field(
            "properties",
            "Map<String, Value>",
            vec![Attribute {
                path: vec!["serde".to_string()],
                body: AttrBody::Opaque,
                span: sp(60),
            }],
            20,
        )],
    );
    let emitted = derive_impl(&record).expect("record must be accepted");
    assert_eq!(emitted.store.name, "properties");
}

#[test]
fn unrelated_record_attributes_are_tolerated() {
    let record = named_record(
        "Derived",
        vec![
            Attribute { path: vec!["derive".to_string()], body: AttrBody::Opaque, span: sp(5) },
            kind_attr("Global", 10),
        ],
        vec![field("properties", "Map<String, Value>", vec![], 20)],
    );
    let emitted = derive_impl(&record).expect("record must be accepted");
    assert_eq!(emitted.kind, ObjectType::Global);
}

#[test]
fn malformed_kind_attribute_bare() {
    let record = named_record(
        "Bare",
        vec![Attribute {
            path: vec!["object_type".to_string()],
            body: AttrBody::Absent,
            span: sp(10),
        }],
        vec![field("properties", "Map<String, Value>", vec![], 20)],
    );
    let d = derive_impl(&record).expect_err("record must be rejected");
    assert_eq!(d.kind, DiagnosticKind::MalformedKindAttribute);
    assert_eq!(d.span, sp(10));
    assert_eq!(d.message(), "expected #[object_type(<type>)]");
}

#[test]
fn malformed_kind_attribute_empty_parens() {
    let record = named_record(
        "EmptyParens",
        vec![Attribute {
            path: vec!["object_type".to_string()],
            body: AttrBody::Idents(vec![]),
            span: sp(10),
        }],
        vec![field("properties", "Map<String, Value>", vec![], 20)],
    );
    let d = derive_impl(&record).expect_err("record must be rejected");
    assert_eq!(d.kind, DiagnosticKind::MalformedKindAttribute);
}

#[test]
fn malformed_kind_attribute_two_idents() {
    let record = named_record(
        "TwoIdents",
        vec![Attribute {
            path: vec!["object_type".to_string()],
            body: AttrBody::Idents(vec![ident("Array", 11), ident("Object", 12)]),
            span: sp(10),
        }],
        vec![field("properties", "Map<String, Value>", vec![], 20)],
    );
    let d = derive_impl(&record).expect_err("record must be rejected");
    assert_eq!(d.kind, DiagnosticKind::MalformedKindAttribute);
}

#[test]
fn malformed_kind_attribute_opaque_body() {
    let record = named_record(
        "Odd",
        vec![Attribute {
            path: vec!["object_type".to_string()],
            body: AttrBody::Opaque,
            span: sp(10),
        }],
        vec![field("properties", "Map<String, Value>", vec![], 20)],
    );
    let d = derive_impl(&record).expect_err("record must be rejected");
    assert_eq!(d.kind, DiagnosticKind::MalformedKindAttribute);
}

#[test]
fn all_five_variants_are_recognized() {
    let cases = [
        ("Global", ObjectType::Global),
        ("Function", ObjectType::Function),
        ("Array", ObjectType::Array),
        ("String", ObjectType::Str),
        ("Object", ObjectType::Object),
    ];
    for (name, kind) in cases {
        let record = named_record(
            "Probe",
            vec![kind_attr(name, 10)],
            vec![field("properties", "Map<String, Value>", vec![], 20)],
        );
        let emitted = derive_impl(&record).expect("record must be accepted");
        assert_eq!(emitted.kind, kind);
        let code = object_derive(&record).expect("record must be accepted");
        let path = format!("crate::runtime::ObjectType::{}", name);
        assert!(code.contains(&path));
    }
}

#[test]
fn first_kind_attribute_decides() {
    let record = named_record(
        "TwoTags",
        vec![kind_attr("Array", 10), kind_attr("Prototype", 50)],
        vec![field("properties", "Map<String, Value>", vec![], 20)],
    );
    let emitted = derive_impl(&record).expect("record must be accepted");
    assert_eq!(emitted.kind, ObjectType::Array);
}

#[test]
fn expression_marker_stamp() {
    let out = expression_derive(&ident("BinaryOp", 7));
    assert_eq!(out, "impl crate::ir::marker::Expression for BinaryOp {}\n");
}

#[test]
fn statement_marker_stamp() {
    let out = statement_derive(&ident("IfBlock", 7));
    assert_eq!(out, "impl crate::ir::marker::Statement for IfBlock {}\n");
}

#[test]
fn declaration_marker_stamp() {
    let out = decl_derive(&ident("LetBinding", 7));
    assert_eq!(out, "impl crate::ir::marker::Declaration for LetBinding {}\n");
}
