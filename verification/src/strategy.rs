//! Resolution: combining a member's directive with its container's kind
//! into the one duplication strategy that synthesis will emit.
//!
//! The table is uniform over containers; the only container-dependent part
//! is the receiver a function override is handed — a reference to the one
//! member for records, the whole matched variant for tagged unions.

use vstd::prelude::*;

use crate::model::CallReceiver;
use crate::model::Directive;
use crate::model::DirectiveView;
use crate::model::Strategy;
use crate::model::StrategyView;

verus! {

/// The resolution table: exactly one strategy per directive.
pub open spec fn spec_resolve(d: DirectiveView, receiver: CallReceiver) -> StrategyView {
    match d {
        DirectiveView::Absent => StrategyView::RecurseClone,
        DirectiveView::Bare => StrategyView::RecurseClone,
        DirectiveView::Literal(f) => StrategyView::EmitLiteral(f),
        DirectiveView::DefaultValue => StrategyView::EmitDefault,
        DirectiveView::FunctionOverride(f) => StrategyView::EmitFunctionCall(f, receiver),
        DirectiveView::Unrecognized(f) => StrategyView::EmitLiteral(f),
    }
}

/// Resolve one parsed directive against the container it sits in.
pub fn resolve_strategy(d: Directive, receiver: CallReceiver) -> (s: Strategy)
    ensures
        s@ == spec_resolve(d@, receiver),
{
    match d {
        Directive::Absent => Strategy::RecurseClone,
        Directive::Bare => Strategy::RecurseClone,
        Directive::Literal(f) => Strategy::EmitLiteral(f),
        Directive::DefaultValue => Strategy::EmitDefault,
        Directive::FunctionOverride(f) => Strategy::EmitFunctionCall(f, receiver),
        Directive::Unrecognized(f) => Strategy::EmitLiteral(f),
    }
}

} // verus!
