use js_object_derive::ast::{AttrBody, Attribute, Field, Ident, Record, RecordData, Span};
use js_object_derive::object_derive::{derive_impl, ObjectType};
use js_object_derive::runtime::{ObjectInstance, PropertyMap, Value};

fn sp(n: u32) -> Span {
    Span { lo: n, hi: n + 1 }
}

fn value(text: &str) -> Value {
    Value { text: text.to_string() }
}

fn js_string_record() -> Record {
    Record {
        ident: Ident { name: "JsString".to_string(), span: sp(1) },
        attrs: vec![Attribute {
            path: vec!["object_type".to_string()],
            body: AttrBody::Idents(vec![Ident { name: "String".to_string(), span: sp(10) }]),
            span: sp(9),
        }],
        data: RecordData::NamedFields {
            fields: vec![Field {
                name: Ident { name: "properties".to_string(), span: sp(20) },
                ty: "Map<String, Value>".to_string(),
                attrs: vec![],
            }],
            list_span: sp(2),
        },
        span: sp(3),
    }
}

#[test]
fn emitted_kind_is_reported() {
    let emitted = derive_impl(&js_string_record()).expect("record must be accepted");
    let instance = ObjectInstance::new(&emitted);
    assert_eq!(instance.get_type(), ObjectType::Str);
}

#[test]
fn put_then_get_returns_the_value() {
    let emitted = derive_impl(&js_string_record()).expect("record must be accepted");
    let mut instance = ObjectInstance::new(&emitted);
    instance.put("x".to_string(), value("1"));
    let got = instance.get(&"x".to_string()).expect("bound name must be found");
    assert_eq!(got.text, "1");
}

#[test]
fn get_of_absent_name_returns_nothing() {
    let emitted = derive_impl(&js_string_record()).expect("record must be accepted");
    let mut instance = ObjectInstance::new(&emitted);
    assert!(instance.get(&"x".to_string()).is_none());
    instance.put("x".to_string(), value("1"));
    assert!(instance.get(&"y".to_string()).is_none());
}

#[test]
fn put_overwrites_in_place() {
    let mut store = PropertyMap::new();
    store.put("x".to_string(), value("1"));
    store.put("y".to_string(), value("2"));
    store.put("x".to_string(), value("3"));
    assert_eq!(store.len(), 2);
    let got = store.get(&"x".to_string()).expect("bound name must be found");
    assert_eq!(got.text, "3");
    assert_eq!(store.format_properties(), "{\n    x: 3\n    y: 2\n}");
}

#[test]
fn dump_of_empty_store() {
    let store = PropertyMap::new();
    assert_eq!(store.format_properties(), "{\n}");
}

#[test]
fn dump_lists_entries_in_store_order() {
    let mut store = PropertyMap::new();
    store.put("first".to_string(), value("a"));
    store.put("second".to_string(), value("b"));
    store.put("third".to_string(), value("c"));
    assert_eq!(store.format_properties(), "{\n    first: a\n    second: b\n    third: c\n}");
}

#[test]
fn dump_matches_the_line_shape() {
    let mut store = PropertyMap::new();
    store.put("len".to_string(), value("3"));
    store.put("cap".to_string(), value("8"));
    let dump = store.format_properties();
    let mut lines = dump.lines();
    assert_eq!(lines.next(), Some("{"));
    let mut seen: usize = 0;
    for line in lines {
        if line == "}" {
            break;
        }
        seen += 1;
        assert!(line.starts_with("    "));
        let rest = &line[4..];
        let (name, val) = rest.split_once(": ").expect("line must hold a separator");
        assert!(!name.is_empty());
        assert!(!val.is_empty());
    }
    assert_eq!(seen, 2);
    assert!(dump.ends_with("\n}"));
}

#[test]
fn instances_are_independent() {
    let emitted = derive_impl(&js_string_record()).expect("record must be accepted");
    let mut first = ObjectInstance::new(&emitted);
    let second = ObjectInstance::new(&emitted);
    first.put("x".to_string(), value("1"));
    assert!(second.get(&"x".to_string()).is_none());
    assert_eq!(second.format_properties(), "{\n}");
}
