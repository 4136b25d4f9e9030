//! The generation-time picture of an annotated record declaration.
//!
//! A generator invocation receives one declaration: a record identifier, the
//! record-level attributes, and the record's data (for a struct with named
//! fields, the ordered field list). Everything the generators read is held
//! here as plain values; each type has a mathematical view used by the
//! contracts.

use vstd::prelude::*;

verus! {

/// A region of source text. Diagnostics carry one of these by value so that
/// the host compiler can point at the offending tokens.
#[derive(Clone, Copy, PartialEq, Eq, Structural, Debug)]
pub struct Span {
    pub lo: u32,
    pub hi: u32,
}

/// An identifier token together with its source location.
#[derive(Debug)]
pub struct Ident {
    pub name: String,
    pub span: Span,
}

/// Mathematical image of [`Ident`].
pub ghost struct IdentView {
    pub name: Seq<char>,
    pub span: Span,
}

impl View for Ident {
    type V = IdentView;

    open spec fn view(&self) -> IdentView {
        IdentView { name: self.name@, span: self.span }
    }
}

impl DeepView for Ident {
    type V = IdentView;

    open spec fn deep_view(&self) -> IdentView {
        self.view()
    }
}

impl Clone for Ident {
    fn clone(&self) -> (r: Ident)
        ensures
            r == *self,
    {
        Ident { name: self.name.clone(), span: self.span }
    }
}

/// What stands between the parentheses of an attribute, classified as far as
/// the generators care: they only ever look for a lone identifier.
#[derive(Debug)]
pub enum AttrBody {
    /// A bare attribute with no parenthesized body, as in `#[properties]`.
    Absent,
    /// A parenthesized list of identifier tokens, as in `#[object_type(Array)]`.
    Idents(Vec<Ident>),
    /// A parenthesized body holding anything other than identifier tokens.
    Opaque,
}

/// Mathematical image of [`AttrBody`].
pub ghost enum AttrBodyView {
    Absent,
    Idents(Seq<IdentView>),
    Opaque,
}

impl View for AttrBody {
    type V = AttrBodyView;

    open spec fn view(&self) -> AttrBodyView {
        match self {
            AttrBody::Absent => AttrBodyView::Absent,
            AttrBody::Idents(ids) => AttrBodyView::Idents(ids.deep_view()),
            AttrBody::Opaque => AttrBodyView::Opaque,
        }
    }
}

/// A record-level or field-level attribute: a path of segments and a body.
#[derive(Debug)]
pub struct Attribute {
    /// The path segments; `#[object_type(Array)]` has the single segment
    /// `object_type`.
    pub path: Vec<String>,
    pub body: AttrBody,
    pub span: Span,
}

/// Mathematical image of [`Attribute`].
pub ghost struct AttributeView {
    pub path: Seq<Seq<char>>,
    pub body: AttrBodyView,
    pub span: Span,
}

impl View for Attribute {
    type V = AttributeView;

    open spec fn view(&self) -> AttributeView {
        AttributeView { path: self.path.deep_view(), body: self.body@, span: self.span }
    }
}

impl DeepView for Attribute {
    type V = AttributeView;

    open spec fn deep_view(&self) -> AttributeView {
        self.view()
    }
}

/// One named field of a record: its name, the text of its type reference
/// (never inspected by the generators), and its field-level attributes.
#[derive(Debug)]
pub struct Field {
    pub name: Ident,
    pub ty: String,
    pub attrs: Vec<Attribute>,
}

/// Mathematical image of [`Field`].
pub ghost struct FieldView {
    pub name: IdentView,
    pub ty: Seq<char>,
    pub attrs: Seq<AttributeView>,
}

impl View for Field {
    type V = FieldView;

    open spec fn view(&self) -> FieldView {
        FieldView { name: self.name@, ty: self.ty@, attrs: self.attrs.deep_view() }
    }
}

impl DeepView for Field {
    type V = FieldView;

    open spec fn deep_view(&self) -> FieldView {
        self.view()
    }
}

/// The data of a declaration, as far as the generators distinguish it. Only a
/// struct with named fields can participate; every other shape is rejected.
#[derive(Debug)]
pub enum RecordData {
    /// A struct with named fields; `list_span` covers the field list, where a
    /// missing property store is reported.
    NamedFields { fields: Vec<Field>, list_span: Span },
    /// A tuple struct.
    TupleFields,
    /// A unit struct.
    Unit,
    /// An enumeration.
    Enumeration,
    /// A union.
    Union,
}

/// Mathematical image of [`RecordData`].
pub ghost enum RecordDataView {
    NamedFields { fields: Seq<FieldView>, list_span: Span },
    TupleFields,
    Unit,
    Enumeration,
    Union,
}

impl View for RecordData {
    type V = RecordDataView;

    open spec fn view(&self) -> RecordDataView {
        match self {
            RecordData::NamedFields { fields, list_span } => RecordDataView::NamedFields {
                fields: fields.deep_view(),
                list_span: *list_span,
            },
            RecordData::TupleFields => RecordDataView::TupleFields,
            RecordData::Unit => RecordDataView::Unit,
            RecordData::Enumeration => RecordDataView::Enumeration,
            RecordData::Union => RecordDataView::Union,
        }
    }
}

/// A whole annotated declaration: what one generator invocation consumes.
#[derive(Debug)]
pub struct Record {
    pub ident: Ident,
    pub attrs: Vec<Attribute>,
    pub data: RecordData,
    /// The span of the whole declaration, where an unsupported shape is
    /// reported.
    pub span: Span,
}

/// Mathematical image of [`Record`].
pub ghost struct RecordView {
    pub ident: IdentView,
    pub attrs: Seq<AttributeView>,
    pub data: RecordDataView,
    pub span: Span,
}

impl View for Record {
    type V = RecordView;

    open spec fn view(&self) -> RecordView {
        RecordView {
            ident: self.ident@,
            attrs: self.attrs.deep_view(),
            data: self.data@,
            span: self.span,
        }
    }
}

} // verus!
