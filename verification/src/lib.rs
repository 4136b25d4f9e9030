//! Compile-time code generators for a JavaScript-like runtime's object model.
//!
//! Given a record declaration annotated with a kind tag and a designated
//! property-store field, [`object_derive`] emits the implementation that
//! makes the record participate as a first-class object in the runtime:
//! property read/write, kind reporting, dynamic downcasting and a
//! human-readable dump. Three further generators stamp marker-trait
//! memberships onto IR node types.
//!
//! The declaration reaches the generators as the plain data of [`ast`]; a
//! host-specific adapter turns the compiler's token trees into that form and
//! surfaces the [`diagnostic::Diagnostic`] values as compiler errors. The
//! behaviour the emitted implementation promises at run time is modelled and
//! proved in [`runtime`].

pub mod ast;
pub mod diagnostic;
pub mod object_derive;
pub mod runtime;

use vstd::prelude::*;
use crate::ast::{Ident, Record};
use crate::diagnostic::Diagnostic;
use crate::object_derive::{spec_derive, spec_render, ObjectImplView};

verus! {

/// The `Object` generator: one whole generation unit. Parses the kind tag,
/// resolves the property store, and emits the implementation block as source
/// text, or surfaces the single diagnostic that aborted the unit.
pub fn object_derive(record: &Record) -> (r: Result<String, Diagnostic>)
    ensures
        match r {
            Ok(code) => spec_derive(record@) matches Ok(o) && code@ == spec_render(o),
            Err(d) => spec_derive(record@) == Err::<ObjectImplView, Diagnostic>(d),
        },
{
    match object_derive::derive_impl(record) {
        Ok(o) => Ok(o.render()),
        Err(d) => Err(d),
    }
}

/// The three marker traits of the IR namespace that a node type can be
/// stamped with.
#[derive(Clone, Copy, PartialEq, Eq, Structural, Debug)]
pub enum MarkerTrait {
    Expression,
    Statement,
    Declaration,
}

/// The name of each marker trait, as spelled in the emitted block.
pub open spec fn spec_marker_ident(marker: MarkerTrait) -> Seq<char> {
    match marker {
        MarkerTrait::Expression => "Expression"@,
        MarkerTrait::Statement => "Statement"@,
        MarkerTrait::Declaration => "Declaration"@,
    }
}

/// The source text of a marker-trait stamp: an empty implementation of the
/// marker for the named type.
pub open spec fn spec_marker_render(marker: MarkerTrait, name: Seq<char>) -> Seq<char> {
    "impl crate::ir::marker::"@ + spec_marker_ident(marker) + " for "@ + name + " {}\n"@
}

/// Emits the empty implementation that stamps the given marker trait onto
/// the named type.
pub fn marker_impl(marker: MarkerTrait, name: &Ident) -> (r: String)
    ensures
        r@ == spec_marker_render(marker, name@.name),
{
    let mut out = String::from_str("impl crate::ir::marker::");
    match marker {
        MarkerTrait::Expression => out.append("Expression"),
        MarkerTrait::Statement => out.append("Statement"),
        MarkerTrait::Declaration => out.append("Declaration"),
    }
    out.append(" for ");
    out.append(name.name.as_str());
    out.append(" {}\n");
    out
}

/// Stamps the `Expression` marker-trait membership onto the named IR node
/// type.
pub fn expression_derive(input: &Ident) -> (r: String)
    ensures
        r@ == spec_marker_render(MarkerTrait::Expression, input@.name),
{
    marker_impl(MarkerTrait::Expression, input)
}

/// Stamps the `Statement` marker-trait membership onto the named IR node
/// type.
pub fn statement_derive(input: &Ident) -> (r: String)
    ensures
        r@ == spec_marker_render(MarkerTrait::Statement, input@.name),
{
    marker_impl(MarkerTrait::Statement, input)
}

/// Stamps the `Declaration` marker-trait membership onto the named IR node
/// type.
pub fn decl_derive(input: &Ident) -> (r: String)
    ensures
        r@ == spec_marker_render(MarkerTrait::Declaration, input@.name),
{
    marker_impl(MarkerTrait::Declaration, input)
}

} // verus!
