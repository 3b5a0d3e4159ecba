//! A declarative generator of duplication (`clone`) procedures.
//!
//! Given the shape of one type definition — a record or a tagged union,
//! with unit, positional or named members — and an optional directive
//! marker on each record member or variant, the crate synthesizes the text
//! of a complete `Clone` implementation for the type.  A directive lets a
//! member opt out of recursive duplication in favour of a literal value, a
//! default value, or a custom duplication function.
//!
//! The pipeline is a single pure pass: parse every directive, classify the
//! shape, resolve each member's strategy, synthesize the fragments, and
//! assemble them in declaration order.  Generation either fully succeeds
//! or reports one fault; there is no partial output.

use vstd::prelude::*;

pub mod directive;
pub mod laws;
pub mod model;
pub mod record;
pub mod scan;
pub mod strategy;
pub mod text;
pub mod variants;

pub use model::Annotation;
pub use model::CallReceiver;
pub use model::CloneMode;
pub use model::Directive;
pub use model::ErrorSite;
pub use model::FieldList;
pub use model::GenError;
pub use model::NamedField;
pub use model::Strategy;
pub use model::TypeDef;
pub use model::TypeKind;
pub use model::Variant;
pub use model::VariantShape;
pub use directive::parse_directive;
pub use record::clone_fields;
pub use record::clone_struct_type;
pub use strategy::resolve_strategy;
pub use variants::clone_enum_type;
pub use variants::clone_named_fields;
pub use variants::clone_unit_fields;
pub use variants::clone_unnamed_fields;
pub use variants::clone_variant_fields;

use model::ErrorSiteView;
use model::GenErrorView;
use model::TypeDefView;
use model::TypeKindView;

verus! {

/// The one terminal diagnostic: the whole output of an unsupported kind.
pub open spec fn spec_unsupported_diag() -> Seq<char> {
    "compile_error!(\"Cannot use SmartClone on union types.\")"@
}

/// Generation succeeds if and only if every directive that generation
/// reads is free of fatal faults.  The members of an unsupported kind are
/// never read, so it always succeeds — with the diagnostic as its output.
pub open spec fn spec_derive_ok(t: TypeDefView) -> bool {
    match t.kind {
        TypeKindView::Record(fl) => record::spec_fields_ok(fl),
        TypeKindView::TaggedUnion(vs) => variants::spec_variants_ok(vs),
        TypeKindView::Unsupported(_) => true,
    }
}

/// The full generated unit: the duplication procedure of the whole type,
/// or the terminal diagnostic for an unsupported kind.
pub open spec fn spec_generated(t: TypeDefView) -> Seq<char> {
    match t.kind {
        TypeKindView::Record(fl) => "impl Clone for "@ + t.name
            + " { fn clone(&self) -> Self { "@ + record::spec_struct_code(t.name, fl) + " } }"@,
        TypeKindView::TaggedUnion(vs) => "impl Clone for "@ + t.name
            + " { fn clone(&self) -> Self { "@ + variants::spec_enum_code(t.name, vs) + " } }"@,
        TypeKindView::Unsupported(_) => spec_unsupported_diag(),
    }
}

/// The reported error names the first member or variant whose directive is
/// malformed.
pub open spec fn spec_error_matches(t: TypeDefView, e: GenErrorView) -> bool {
    match t.kind {
        TypeKindView::Record(fl) => exists|i: int|
            #[trigger] record::spec_first_bad_field(fl, i) && e == GenErrorView::MalformedDirective(
                ErrorSiteView::Field(i),
            ),
        TypeKindView::TaggedUnion(vs) => exists|i: int|
            #[trigger] variants::spec_first_bad_variant(vs, i) && e
                == GenErrorView::MalformedDirective(ErrorSiteView::VariantMarker(i)),
        TypeKindView::Unsupported(_) => false,
    }
}

/// Generate the duplication procedure of one type definition.
///
/// The output is a pure function of the definition alone: generating twice
/// from the same definition gives byte-identical text.
pub fn smart_clone_derive(input: &TypeDef) -> (r: Result<String, GenError>)
    ensures
        r is Ok <==> spec_derive_ok(input@),
        match r {
            Result::Ok(s) => s@ == spec_generated(input@),
            Result::Err(e) => spec_error_matches(input@, e@),
        },
{
    match &input.kind {
        TypeKind::Unsupported(_) => Result::Ok(
            String::from_str("compile_error!(\"Cannot use SmartClone on union types.\")"),
        ),
        TypeKind::Record(fields) => {
            match record::clone_struct_type(input.name.as_str(), fields) {
                Result::Ok(body) => {
                    let mut s = String::from_str("impl Clone for ");
                    s.append(input.name.as_str());
                    s.append(" { fn clone(&self) -> Self { ");
                    s.append(body.as_str());
                    s.append(" } }");
                    Result::Ok(s)
                },
                Result::Err(e) => Result::Err(e),
            }
        },
        TypeKind::TaggedUnion(vs) => {
            match variants::clone_enum_type(input.name.as_str(), vs) {
                Result::Ok(body) => {
                    let mut s = String::from_str("impl Clone for ");
                    s.append(input.name.as_str());
                    s.append(" { fn clone(&self) -> Self { ");
                    s.append(body.as_str());
                    s.append(" } }");
                    Result::Ok(s)
                },
                Result::Err(e) => Result::Err(e),
            }
        },
    }
}

} // verus!
