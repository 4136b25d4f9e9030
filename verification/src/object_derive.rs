//! The `Object` code generator: parse the kind-tag attribute, resolve the
//! property-store field, and emit the implementation block that attaches the
//! runtime's `Object` capability to the annotated record.
//!
//! Each step has a spec-level twin (`spec_parse_object_type`,
//! `spec_find_store`, `spec_derive`, `spec_render`) that pins the executable
//! result down exactly; the generator is a pure function of the declaration
//! it is handed.

use vstd::prelude::*;
use crate::ast::{Attribute, AttributeView, AttrBody, AttrBodyView, Field, FieldView, Ident,
    IdentView, Record, RecordView, RecordData, RecordDataView, Span};
use crate::diagnostic::{Diagnostic, DiagnosticKind};

verus! {

/// The closed set of runtime kinds a record can be tagged with. The
/// `object_type` identifiers `Global`, `Function`, `Array`, `String` and
/// `Object` name these; the `String` kind is held here as [`ObjectType::Str`]
/// so as not to shadow the string type.
#[derive(Clone, Copy, PartialEq, Eq, Structural, Debug)]
pub enum ObjectType {
    Global,
    Function,
    Array,
    /// The runtime's `String` kind.
    Str,
    Object,
}

/// The identifier text of each kind variant, as written in the attribute and
/// in the emitted kind path.
pub open spec fn spec_kind_ident(kind: ObjectType) -> Seq<char> {
    match kind {
        ObjectType::Global => "Global"@,
        ObjectType::Function => "Function"@,
        ObjectType::Array => "Array"@,
        ObjectType::Str => "String"@,
        ObjectType::Object => "Object"@,
    }
}

/// Which kind, if any, the given identifier text names.
pub open spec fn spec_variant_of(name: Seq<char>) -> Option<ObjectType> {
    if name == "Global"@ {
        Some(ObjectType::Global)
    } else if name == "Function"@ {
        Some(ObjectType::Function)
    } else if name == "Array"@ {
        Some(ObjectType::Array)
    } else if name == "String"@ {
        Some(ObjectType::Str)
    } else if name == "Object"@ {
        Some(ObjectType::Object)
    } else {
        None
    }
}

/// Maps identifier text to the kind it names, or `None` outside the closed
/// set.
pub fn variant_of(name: &String) -> (r: Option<ObjectType>)
    ensures
        r == spec_variant_of(name@),
{
    if *name == String::from_str("Global") {
        Some(ObjectType::Global)
    } else if *name == String::from_str("Function") {
        Some(ObjectType::Function)
    } else if *name == String::from_str("Array") {
        Some(ObjectType::Array)
    } else if *name == String::from_str("String") {
        Some(ObjectType::Str)
    } else if *name == String::from_str("Object") {
        Some(ObjectType::Object)
    } else {
        None
    }
}

/// Whether the attribute's path is the given single segment.
pub open spec fn spec_path_is(a: AttributeView, segment: Seq<char>) -> bool {
    a.path.len() == 1 && a.path[0] == segment
}

/// Whether the attribute's path is the given single segment.
fn path_is(a: &Attribute, segment: &str) -> (r: bool)
    ensures
        r == spec_path_is(a@, segment@),
{
    if a.path.len() == 1 {
        let target = String::from_str(segment);
        let r = a.path[0] == target;
        proof {
            assert(a@.path[0] == a.path@[0]@);
        }
        r
    } else {
        false
    }
}

/// The first attribute at or after position `i` whose path is the given
/// single segment.
pub open spec fn spec_attr_with_path_from(
    attrs: Seq<AttributeView>,
    segment: Seq<char>,
    i: int,
) -> Option<AttributeView>
    decreases attrs.len() - i,
{
    if i < 0 || i >= attrs.len() {
        None
    } else if spec_path_is(attrs[i], segment) {
        Some(attrs[i])
    } else {
        spec_attr_with_path_from(attrs, segment, i + 1)
    }
}

/// The first attribute whose path is the given single segment.
pub open spec fn spec_attr_with_path(attrs: Seq<AttributeView>, segment: Seq<char>) -> Option<
    AttributeView,
> {
    spec_attr_with_path_from(attrs, segment, 0)
}

/// The first attribute whose path is the single segment `object_type`.
pub open spec fn spec_kind_attr(attrs: Seq<AttributeView>) -> Option<AttributeView> {
    spec_attr_with_path(attrs, "object_type"@)
}

/// The position of the first attribute in the list whose path is the given
/// single segment, if any.
fn attr_with_path(attrs: &Vec<Attribute>, segment: &str) -> (r: Option<usize>)
    ensures
        match r {
            Some(j) => j < attrs.len() && spec_attr_with_path(attrs.deep_view(), segment@)
                == Some(attrs.deep_view()[j as int]),
            None => spec_attr_with_path(attrs.deep_view(), segment@) is None,
        },
{
    let ghost sattrs = attrs.deep_view();
    let mut i: usize = 0;
    let mut found: Option<usize> = None;
    while i < attrs.len()
        invariant_except_break
            found is None,
        invariant
            i <= attrs.len(),
            sattrs == attrs.deep_view(),
            spec_attr_with_path(sattrs, segment@) == spec_attr_with_path_from(
                sattrs,
                segment@,
                i as int,
            ),
        ensures
            found is None ==> spec_attr_with_path(sattrs, segment@) is None,
            found matches Some(j) ==> j < attrs.len() && spec_attr_with_path(sattrs, segment@)
                == Some(sattrs[j as int]),
        decreases attrs.len() - i,
    {
        proof {
            assert(sattrs[i as int] == attrs@[i as int]@);
        }
        if path_is(&attrs[i], segment) {
            proof {
                assert(spec_attr_with_path_from(sattrs, segment@, i as int) == Some(
                    sattrs[i as int],
                ));
            }
            found = Some(i);
            break ;
        }
        i += 1;
    }
    found
}

/// The parsed kind tag: the variant identifier as written, and the kind it
/// names.
pub struct ObjectTypeAttr {
    pub variant: Ident,
    pub kind: ObjectType,
}

/// Mathematical image of [`ObjectTypeAttr`].
pub ghost struct ObjectTypeAttrView {
    pub variant: IdentView,
    pub kind: ObjectType,
}

impl View for ObjectTypeAttr {
    type V = ObjectTypeAttrView;

    open spec fn view(&self) -> ObjectTypeAttrView {
        ObjectTypeAttrView { variant: self.variant@, kind: self.kind }
    }
}

/// What parsing the kind-tag attribute of a record yields: the matched
/// variant, or the first diagnostic in the order missing / malformed /
/// unknown.
pub open spec fn spec_parse_object_type(attrs: Seq<AttributeView>, owner: IdentView) -> Result<
    ObjectTypeAttrView,
    Diagnostic,
> {
    match spec_kind_attr(attrs) {
        None => Err(
            Diagnostic { kind: DiagnosticKind::MissingKindAttribute, span: owner.span },
        ),
        Some(a) => match a.body {
            AttrBodyView::Idents(ids) => if ids.len() == 1 {
                match spec_variant_of(ids[0].name) {
                    Some(kind) => Ok(ObjectTypeAttrView { variant: ids[0], kind }),
                    None => Err(
                        Diagnostic { kind: DiagnosticKind::UnknownVariant, span: ids[0].span },
                    ),
                }
            } else {
                Err(Diagnostic { kind: DiagnosticKind::MalformedKindAttribute, span: a.span })
            },
            _ => Err(Diagnostic { kind: DiagnosticKind::MalformedKindAttribute, span: a.span }),
        },
    }
}

/// Scans the record-level attributes for the kind tag `object_type(<V>)` and
/// validates the variant identifier against the closed set. Unrelated
/// attributes are tolerated; the first `object_type` attribute decides.
pub fn parse_object_type(attrs: &Vec<Attribute>, owner: &Ident) -> (r: Result<
    ObjectTypeAttr,
    Diagnostic,
>)
    ensures
        match r {
            Ok(t) => spec_parse_object_type(attrs.deep_view(), owner@) == Ok::<
                ObjectTypeAttrView,
                Diagnostic,
            >(t@),
            Err(d) => spec_parse_object_type(attrs.deep_view(), owner@) == Err::<
                ObjectTypeAttrView,
                Diagnostic,
            >(d),
        },
{
    let ghost sattrs = attrs.deep_view();
    let found = attr_with_path(attrs, "object_type");
    match found {
        None => Err(Diagnostic::new(DiagnosticKind::MissingKindAttribute, owner.span)),
        Some(j) => {
            let a = &attrs[j];
            proof {
                assert(sattrs[j as int] == attrs@[j as int]@);
            }
            match &a.body {
                AttrBody::Idents(ids) => {
                    if ids.len() == 1 {
                        proof {
                            assert(ids.deep_view()[0] == ids@[0]@);
                        }
                        match variant_of(&ids[0].name) {
                            Some(kind) => Ok(ObjectTypeAttr { variant: ids[0].clone(), kind }),
                            None => Err(
                                Diagnostic::new(DiagnosticKind::UnknownVariant, ids[0].span),
                            ),
                        }
                    } else {
                        Err(Diagnostic::new(DiagnosticKind::MalformedKindAttribute, a.span))
                    }
                },
                _ => Err(Diagnostic::new(DiagnosticKind::MalformedKindAttribute, a.span)),
            }
        },
    }
}

/// The field's explicit property-store designation: its first `properties`
/// marker attribute, if any.
pub open spec fn spec_field_marker(f: FieldView) -> Option<AttributeView> {
    spec_attr_with_path(f.attrs, "properties"@)
}

/// Whether the field carries an explicit `#[properties]` marker.
pub open spec fn spec_field_is_explicit(f: FieldView) -> bool {
    spec_field_marker(f) is Some
}

/// Whether the field is an implicit candidate: literally named `properties`.
pub open spec fn spec_field_is_implicit(f: FieldView) -> bool {
    f.name.name == "properties"@
}

/// One step per field of the resolution walk: `explicit` and `implicit` hold
/// the candidates seen among the first `i` fields. A second explicit
/// candidate stops the walk; otherwise any explicit candidate wins over the
/// first implicit one, and a record with neither has no store.
pub open spec fn spec_scan_store(
    fields: Seq<FieldView>,
    i: int,
    explicit: Option<IdentView>,
    implicit: Option<IdentView>,
    list_span: Span,
) -> Result<IdentView, Diagnostic>
    decreases fields.len() - i,
{
    if i < 0 || i >= fields.len() {
        match explicit {
            Some(id) => Ok(id),
            None => match implicit {
                Some(id) => Ok(id),
                None => Err(Diagnostic { kind: DiagnosticKind::MissingStore, span: list_span }),
            },
        }
    } else {
        let f = fields[i];
        if spec_field_is_explicit(f) {
            if explicit is Some {
                Err(
                    Diagnostic {
                        kind: DiagnosticKind::AmbiguousStore,
                        span: spec_field_marker(f).unwrap().span,
                    },
                )
            } else {
                spec_scan_store(fields, i + 1, Some(f.name), implicit, list_span)
            }
        } else if spec_field_is_implicit(f) && implicit is None {
            spec_scan_store(fields, i + 1, explicit, Some(f.name), list_span)
        } else {
            spec_scan_store(fields, i + 1, explicit, implicit, list_span)
        }
    }
}

/// The property-store designation of a field list: the single designated
/// field's identifier, or the diagnostic that rejects the list.
pub open spec fn spec_find_store(fields: Seq<FieldView>, list_span: Span) -> Result<
    IdentView,
    Diagnostic,
> {
    spec_scan_store(fields, 0, None::<IdentView>, None::<IdentView>, list_span)
}

/// Walks the fields in declaration order and locates the single field that
/// serves as the property store, by marker attribute or by the name
/// `properties`. Explicit markers win over the name convention; two markers
/// are ambiguous; neither is an error on the field list.
pub fn find_property_store(fields: &Vec<Field>, list_span: Span) -> (r: Result<Ident, Diagnostic>)
    ensures
        match r {
            Ok(id) => spec_find_store(fields.deep_view(), list_span) == Ok::<IdentView, Diagnostic>(
                id@,
            ),
            Err(d) => spec_find_store(fields.deep_view(), list_span) == Err::<
                IdentView,
                Diagnostic,
            >(d),
        },
{
    let ghost sfields = fields.deep_view();
    let mut explicit: Option<Ident> = None;
    let mut implicit: Option<Ident> = None;
    let mut i: usize = 0;
    while i < fields.len()
        invariant
            i <= fields.len(),
            sfields == fields.deep_view(),
            spec_find_store(sfields, list_span) == spec_scan_store(
                sfields,
                i as int,
                explicit.deep_view(),
                implicit.deep_view(),
                list_span,
            ),
        decreases fields.len() - i,
    {
        let f = &fields[i];
        proof {
            assert(sfields[i as int] == fields@[i as int]@);
        }
        match attr_with_path(&f.attrs, "properties") {
            Some(k) => {
                if explicit.is_some() {
                    proof {
                        assert(f.attrs.deep_view()[k as int] == f.attrs@[k as int]@);
                    }
                    return Err(Diagnostic::new(DiagnosticKind::AmbiguousStore, f.attrs[k].span));
                }
                explicit = Some(f.name.clone());
            },
            None => {
                if implicit.is_none() && f.name.name == String::from_str("properties") {
                    implicit = Some(f.name.clone());
                }
            },
        }
        i += 1;
    }
    match explicit {
        Some(id) => Ok(id),
        None => match implicit {
            Some(id) => Ok(id),
            None => Err(Diagnostic::new(DiagnosticKind::MissingStore, list_span)),
        },
    }
}

/// The named-field list of a record's data, or the diagnostic that rejects
/// its shape.
pub open spec fn spec_get_fields(r: RecordView) -> Result<Seq<FieldView>, Diagnostic> {
    match r.data {
        RecordDataView::NamedFields { fields, list_span } => Ok(fields),
        _ => Err(Diagnostic { kind: DiagnosticKind::UnsupportedShape, span: r.span }),
    }
}

/// Extracts the named fields of the record, together with the span of the
/// field list; any other data shape is rejected.
pub fn get_fields(record: &Record) -> (r: Result<(&Vec<Field>, Span), Diagnostic>)
    ensures
        match r {
            Ok(p) => record@.data matches RecordDataView::NamedFields { fields, list_span }
                && fields == p.0.deep_view() && list_span == p.1,
            Err(d) => !(record@.data is NamedFields) && spec_get_fields(record@) == Err::<
                Seq<FieldView>,
                Diagnostic,
            >(d),
        },
{
    match &record.data {
        RecordData::NamedFields { fields, list_span } => Ok((fields, *list_span)),
        _ => Err(Diagnostic::new(DiagnosticKind::UnsupportedShape, record.span)),
    }
}

/// The emitted implementation, in structured form: which record it attaches
/// to, which field backs the property store, and the kind baked into
/// `get_type`. [`ObjectImpl::render`] spells it out as source text.
#[derive(Debug)]
pub struct ObjectImpl {
    pub name: Ident,
    pub store: Ident,
    pub kind: ObjectType,
}

/// Mathematical image of [`ObjectImpl`].
pub ghost struct ObjectImplView {
    pub name: IdentView,
    pub store: IdentView,
    pub kind: ObjectType,
}

impl View for ObjectImpl {
    type V = ObjectImplView;

    open spec fn view(&self) -> ObjectImplView {
        ObjectImplView { name: self.name@, store: self.store@, kind: self.kind }
    }
}

/// What one generator invocation yields for a declaration: parse the kind
/// tag, check the shape, resolve the store, and assemble the implementation;
/// the first failure aborts the invocation.
pub open spec fn spec_derive(r: RecordView) -> Result<ObjectImplView, Diagnostic> {
    match spec_parse_object_type(r.attrs, r.ident) {
        Err(d) => Err(d),
        Ok(t) => match r.data {
            RecordDataView::NamedFields { fields, list_span } => match spec_find_store(
                fields,
                list_span,
            ) {
                Err(d) => Err(d),
                Ok(store) => Ok(ObjectImplView { name: r.ident, store, kind: t.kind }),
            },
            _ => Err(Diagnostic { kind: DiagnosticKind::UnsupportedShape, span: r.span }),
        },
    }
}

/// Runs one generation unit: parse, resolve, assemble. Produces the
/// structured implementation or the single diagnostic that aborted it.
pub fn derive_impl(record: &Record) -> (r: Result<ObjectImpl, Diagnostic>)
    ensures
        match r {
            Ok(o) => spec_derive(record@) == Ok::<ObjectImplView, Diagnostic>(o@),
            Err(d) => spec_derive(record@) == Err::<ObjectImplView, Diagnostic>(d),
        },
{
    let t = match parse_object_type(&record.attrs, &record.ident) {
        Ok(t) => t,
        Err(e) => return Err(e),
    };
    let (fields, list_span) = match get_fields(record) {
        Ok(p) => p,
        Err(e) => return Err(e),
    };
    let store = match find_property_store(fields, list_span) {
        Ok(s) => s,
        Err(e) => return Err(e),
    };
    Ok(ObjectImpl { name: record.ident.clone(), store, kind: t.kind })
}

/// The identifier text of the kind variant, as spelled in the emitted kind
/// path.
pub fn kind_ident(kind: ObjectType) -> (r: &'static str)
    ensures
        r@ == spec_kind_ident(kind),
{
    match kind {
        ObjectType::Global => "Global",
        ObjectType::Function => "Function",
        ObjectType::Array => "Array",
        ObjectType::Str => "String",
        ObjectType::Object => "Object",
    }
}

/// The source text of the emitted implementation block: the record wired to
/// its store field, the kind baked into `get_type`, the downcast and
/// ownership handles, and the property dump.
pub open spec fn spec_render(o: ObjectImplView) -> Seq<char> {
    "impl crate::runtime::Object for "@ + o.name.name
        + " {\n    fn put(&mut self, name: String, value: crate::runtime::Value) {\n        self."@
        + o.store.name
        + ".insert(name, value);\n    }\n\n    fn get(&self, name: &str) -> Option<crate::runtime::Value> {\n        self."@
        + o.store.name
        + ".get(name).cloned()\n    }\n\n    fn get_mut(&mut self, name: &str) -> Option<&mut crate::runtime::Value> {\n        self."@
        + o.store.name
        + ".get_mut(name)\n    }\n\n    fn get_type(&self) -> crate::runtime::ObjectType {\n        crate::runtime::ObjectType::"@
        + spec_kind_ident(o.kind)
        + "\n    }\n\n    fn as_any(&mut self) -> &mut dyn std::any::Any {\n        self\n    }\n\n    fn into_object(self: Box<Self>) -> Box<dyn crate::runtime::Object> {\n        self as Box<dyn crate::runtime::Object>\n    }\n\n    fn format_properties(&self) -> String {\n        let mut buf = String::new();\n        buf += \"{\\n\";\n        for (k, v) in self."@
        + o.store.name
        + ".iter() {\n            buf += \"    \";\n            buf += k;\n            buf += \": \";\n            buf += &v.to_string();\n            buf += \"\\n\";\n        }\n        buf += \"}\";\n        buf\n    }\n}\n"@
}

impl ObjectImpl {
    /// Spells the implementation block out as source text, byte for byte the
    /// rendering that [`spec_render`] states.
    pub fn render(&self) -> (r: String)
        ensures
            r@ == spec_render(self@),
    {
        let mut out = String::from_str("impl crate::runtime::Object for ");
        out.append(self.name.name.as_str());
        out.append(
            " {\n    fn put(&mut self, name: String, value: crate::runtime::Value) {\n        self.",
        );
        out.append(self.store.name.as_str());
        out.append(
            ".insert(name, value);\n    }\n\n    fn get(&self, name: &str) -> Option<crate::runtime::Value> {\n        self.",
        );
        out.append(self.store.name.as_str());
        out.append(
            ".get(name).cloned()\n    }\n\n    fn get_mut(&mut self, name: &str) -> Option<&mut crate::runtime::Value> {\n        self.",
        );
        out.append(self.store.name.as_str());
        out.append(
            ".get_mut(name)\n    }\n\n    fn get_type(&self) -> crate::runtime::ObjectType {\n        crate::runtime::ObjectType::",
        );
        out.append(kind_ident(self.kind));
        out.append(
            "\n    }\n\n    fn as_any(&mut self) -> &mut dyn std::any::Any {\n        self\n    }\n\n    fn into_object(self: Box<Self>) -> Box<dyn crate::runtime::Object> {\n        self as Box<dyn crate::runtime::Object>\n    }\n\n    fn format_properties(&self) -> String {\n        let mut buf = String::new();\n        buf += \"{\\n\";\n        for (k, v) in self.",
        );
        out.append(self.store.name.as_str());
        out.append(
            ".iter() {\n            buf += \"    \";\n            buf += k;\n            buf += \": \";\n            buf += &v.to_string();\n            buf += \"\\n\";\n        }\n        buf += \"}\";\n        buf\n    }\n}\n",
        );
        out
    }
}

/// Determinism law: emitting twice for the same declaration produces
/// identical output. Two records that spell out the same declaration are
/// decided and rendered identically; together with the exact postconditions
/// of [`derive_impl`] and [`ObjectImpl::render`], each of which pins its
/// result to a function of the input alone, the executable generator cannot
/// produce two different outputs for one input.
pub proof fn lemma_derive_deterministic(a: Record, b: Record)
    requires
        a@ == b@,
    ensures
        spec_derive(a@) == spec_derive(b@),
        (spec_derive(a@) matches Ok(o) ==> spec_derive(b@) matches Ok(p) && spec_render(o)
            == spec_render(p)),
{
}

/// Independence law: the outcome for a record depends on that record alone.
/// Wherever a record stands in a batch of generation units, and whatever the
/// other units hold, its derivation is the same.
pub proof fn lemma_derive_independent(batch1: Seq<RecordView>, batch2: Seq<RecordView>, i: int, j: int)
    requires
        0 <= i < batch1.len(),
        0 <= j < batch2.len(),
        batch1[i] == batch2[j],
    ensures
        spec_derive(batch1[i]) == spec_derive(batch2[j]),
{
}

/// Kind fidelity law: for every accepted record, the kind baked into the
/// emitted `get_type` is exactly the variant named in its `object_type`
/// attribute.
pub proof fn lemma_kind_fidelity(r: RecordView, o: ObjectImplView)
    requires
        spec_derive(r) == Ok::<ObjectImplView, Diagnostic>(o),
    ensures
        spec_parse_object_type(r.attrs, r.ident) matches Ok(t) && o.kind == t.kind
            && spec_variant_of(t.variant.name) == Some(o.kind),
{
}

/// Store designation law: for every accepted record, the emitted
/// implementation attaches to that record's identifier and wires exactly the
/// field that the resolver designates as backing storage.
pub proof fn lemma_store_designation(r: RecordView, o: ObjectImplView)
    requires
        spec_derive(r) == Ok::<ObjectImplView, Diagnostic>(o),
    ensures
        o.name == r.ident,
        r.data matches RecordDataView::NamedFields { fields, list_span } && spec_find_store(
            fields,
            list_span,
        ) == Ok::<IdentView, Diagnostic>(o.store),
{
}

} // verus!
