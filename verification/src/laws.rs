//! The stated laws of the generator, each proved from the same
//! specification functions that the public contracts use.

use vstd::prelude::*;

use crate::directive::is_expression;
use crate::directive::spec_directive;
use crate::directive::spec_keyed;
use crate::directive::KeyedView;
use crate::model::AnnotationView;
use crate::model::CallReceiver;
use crate::model::CloneModeView;
use crate::model::DirectiveView;
use crate::model::FieldListView;
use crate::model::StrategyView;
use crate::model::TypeDefView;
use crate::model::TypeKindView;
use crate::record::spec_member_code;
use crate::strategy::spec_resolve;
use crate::variants::spec_variant_mode;
use crate::spec_derive_ok;
use crate::spec_generated;
use crate::spec_unsupported_diag;

verus! {

/// A member without a directive, or with a bare marker, always keeps
/// recursive duplication — in either container kind.
pub proof fn lemma_absent_bare_recurse(a: AnnotationView, receiver: CallReceiver)
    requires
        a is Absent || a is Bare,
    ensures
        spec_resolve(spec_directive(a), receiver) == StrategyView::RecurseClone,
{
}

/// A `marker = value` directive replays the value verbatim: the fragment of
/// a record member keyed `key` is exactly `key: value`, and an annotated
/// variant is replaced by exactly `value`, whatever the member's type.
pub proof fn lemma_value_verbatim(key: Seq<char>, v: Seq<char>)
    ensures
        spec_member_code(key, AnnotationView::Value(v)) == key + ": "@ + v,
        spec_variant_mode(AnnotationView::Value(v)) == CloneModeView::Overridden(v),
{
}

/// A payload whose first recognized key is `default` constructs the default
/// value and nothing else: the emitted code is exactly `Default::default()`,
/// so it never references the member's current value.
pub proof fn lemma_default_constructs_default(key: Seq<char>, p: Seq<char>)
    requires
        spec_keyed(p) is KeyDefault,
    ensures
        spec_member_code(key, AnnotationView::Payload(p)) == key + ": Default::default()"@,
        spec_variant_mode(AnnotationView::Payload(p)) == CloneModeView::Overridden(
            "Default::default()"@,
        ),
{
}

/// A `clone_with = "f"` directive calls `f` with a read-only reference to
/// the one member inside a record, but with the entire matched variant
/// inside a tagged union: the override granularities differ by design.
pub proof fn lemma_clone_with_granularity(key: Seq<char>, p: Seq<char>, f: Seq<char>)
    requires
        spec_keyed(p) == KeyedView::KeyFunction(f),
    ensures
        spec_member_code(key, AnnotationView::Payload(p)) == key + ": "@ + f + "(&self."@ + key
            + ")"@,
        spec_variant_mode(AnnotationView::Payload(p)) == CloneModeView::Overridden(
            f + "(self)"@,
        ),
{
}

/// Generation is a pure function of the type definition: two runs over the
/// same definition yield byte-identical output.
pub proof fn lemma_generation_idempotent(t: TypeDefView, r1: Seq<char>, r2: Seq<char>)
    requires
        r1 == spec_generated(t),
        r2 == spec_generated(t),
    ensures
        r1 == r2,
{
}

/// When no keyed item is recognized anywhere in the payload, a payload that
/// parses as one whole expression is classified as that literal expression.
/// (A payload that is itself a keyed item takes the keyed meaning even when
/// it would also parse as an expression: the key wins there.)
pub proof fn lemma_whole_expression_wins(p: Seq<char>)
    requires
        is_expression(p),
        spec_keyed(p) is NoKey,
    ensures
        spec_directive(AnnotationView::Payload(p)) == DirectiveView::Literal(p),
{
}

/// An unrecognized payload behaves exactly like a literal: the engine
/// replays it verbatim, so classification never changes the emitted code.
pub proof fn lemma_unrecognized_like_literal(f: Seq<char>, receiver: CallReceiver)
    ensures
        spec_resolve(DirectiveView::Unrecognized(f), receiver) == spec_resolve(
            DirectiveView::Literal(f),
            receiver,
        ),
{
}

/// An unsupported kind yields exactly the one diagnostic fragment and no
/// per-member fragment, for every combination of member annotations — its
/// members are never processed, so generation cannot fail on them either.
pub proof fn lemma_unsupported_single_diagnostic(name: Seq<char>, members: FieldListView)
    ensures
        spec_derive_ok(TypeDefView { name, kind: TypeKindView::Unsupported(members) }),
        spec_generated(TypeDefView { name, kind: TypeKindView::Unsupported(members) })
            == spec_unsupported_diag(),
{
}

} // verus!
