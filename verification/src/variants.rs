//! Synthesis for tagged unions: one dispatch arm per variant.
//!
//! The pattern side binds every member of the variant — fresh `v0, v1, ...`
//! binders for positional members, the member names themselves for named
//! members.  A variant without a directive duplicates every bound member;
//! an overridden variant replaces the whole construction, and its pattern
//! still binds (or, for positional members, deliberately discards) every
//! member so the arm stays well-formed.  A function override on a variant
//! receives the entire matched variant value, never one member.

use vstd::prelude::*;

use crate::directive::parse_directive;
use crate::directive::spec_directive;
use crate::directive::spec_directive_ok;
use crate::model::AnnotationView;
use crate::model::CallReceiver;
use crate::model::CloneMode;
use crate::model::CloneModeView;
use crate::model::DirectiveView;
use crate::model::ErrorSite;
use crate::model::ErrorSiteView;
use crate::model::GenError;
use crate::model::GenErrorView;
use crate::model::Strategy;
use crate::model::StrategyView;
use crate::model::Variant;
use crate::model::VariantShape;
use crate::model::VariantShapeView;
use crate::model::VariantView;
use crate::strategy::resolve_strategy;
use crate::strategy::spec_resolve;
use crate::text::dec_str;
use crate::text::spec_dec;

verus! {

/// The fresh binder of the i-th positional member: `v0`, `v1`, ...
pub open spec fn spec_binder(i: nat) -> Seq<char> {
    "v"@ + spec_dec(i)
}

/// `v0, v1, ...`: the pattern side of a positional variant.
pub open spec fn spec_binder_list(k: nat) -> Seq<char>
    decreases k,
{
    if k == 0 {
        Seq::empty()
    } else if k == 1 {
        spec_binder(0)
    } else {
        spec_binder_list((k - 1) as nat) + ", "@ + spec_binder((k - 1) as nat)
    }
}

/// `v0.clone(), v1.clone(), ...`: the result side of a positional variant
/// that keeps structural duplication.
pub open spec fn spec_cloned_binder_list(k: nat) -> Seq<char>
    decreases k,
{
    if k == 0 {
        Seq::empty()
    } else if k == 1 {
        spec_binder(0) + ".clone()"@
    } else {
        spec_cloned_binder_list((k - 1) as nat) + ", "@ + spec_binder((k - 1) as nat)
            + ".clone()"@
    }
}

/// `x, y, ...`: the pattern side of a named variant.
pub open spec fn spec_name_list(names: Seq<Seq<char>>) -> Seq<char>
    decreases names.len(),
{
    if names.len() == 0 {
        Seq::empty()
    } else if names.len() == 1 {
        names[0]
    } else {
        spec_name_list(names.drop_last()) + ", "@ + names.last()
    }
}

/// `x: x.clone(), y: y.clone(), ...`: the result side of a named variant
/// that keeps structural duplication.
pub open spec fn spec_named_clone_list(names: Seq<Seq<char>>) -> Seq<char>
    decreases names.len(),
{
    if names.len() == 0 {
        Seq::empty()
    } else if names.len() == 1 {
        names[0] + ": "@ + names[0] + ".clone()"@
    } else {
        spec_named_clone_list(names.drop_last()) + ", "@ + names.last() + ": "@ + names.last()
            + ".clone()"@
    }
}

/// How a resolved strategy plays out at variant granularity: structural
/// duplication, or one expression replacing the whole construction.
pub open spec fn spec_mode_of(d: DirectiveView) -> CloneModeView {
    match spec_resolve(d, CallReceiver::WholeVariant) {
        StrategyView::RecurseClone => CloneModeView::Standard,
        StrategyView::EmitLiteral(f) => CloneModeView::Overridden(f),
        StrategyView::EmitDefault => CloneModeView::Overridden("Default::default()"@),
        StrategyView::EmitFunctionCall(f, _) => CloneModeView::Overridden(f + "(self)"@),
    }
}

/// The mode of a variant, from its raw annotation.
pub open spec fn spec_variant_mode(a: AnnotationView) -> CloneModeView {
    spec_mode_of(spec_directive(a))
}

/// `Type::Variant`.
pub open spec fn spec_variant_head(ty: Seq<char>, vname: Seq<char>) -> Seq<char> {
    ty + "::"@ + vname
}

/// The dispatch arm of one variant, from its shape and mode.
pub open spec fn spec_arm_with_mode(
    ty: Seq<char>,
    vname: Seq<char>,
    shape: VariantShapeView,
    mode: CloneModeView,
) -> Seq<char> {
    let head = spec_variant_head(ty, vname);
    match shape {
        VariantShapeView::Unit => match mode {
            CloneModeView::Standard => head + " => "@ + head,
            CloneModeView::Overridden(x) => head + " => "@ + x,
        },
        VariantShapeView::Positional(k) => match mode {
            CloneModeView::Standard => head + "("@ + spec_binder_list(k) + ") => "@ + head + "("@
                + spec_cloned_binder_list(k) + ")"@,
            CloneModeView::Overridden(x) => head + "(..) => "@ + x,
        },
        VariantShapeView::Named(names) => match mode {
            CloneModeView::Standard => head + " { "@ + spec_name_list(names) + " } => "@ + head
                + " { "@ + spec_named_clone_list(names) + " }"@,
            CloneModeView::Overridden(x) => head + " { "@ + spec_name_list(names) + " } => "@ + x,
        },
    }
}

/// The dispatch arm of one variant, from its raw annotation.
pub open spec fn spec_arm_code(ty: Seq<char>, v: VariantView) -> Seq<char> {
    spec_arm_with_mode(ty, v.name, v.shape, spec_variant_mode(v.annotation))
}

/// The views of a variant list.
pub open spec fn views_of(vs: Seq<Variant>) -> Seq<VariantView> {
    vs.map_values(|v: Variant| v@)
}

/// Every variant marker of the union is free of fatal faults.
pub open spec fn spec_variants_ok(vs: Seq<VariantView>) -> bool {
    forall|i: int| 0 <= i < vs.len() ==> spec_directive_ok(#[trigger] vs[i].annotation)
}

/// Variant `i` is the first one whose marker is malformed.
pub open spec fn spec_first_bad_variant(vs: Seq<VariantView>, i: int) -> bool {
    &&& 0 <= i < vs.len()
    &&& !spec_directive_ok(vs[i].annotation)
    &&& forall|k: int| 0 <= k < i ==> spec_directive_ok(#[trigger] vs[k].annotation)
}

/// All dispatch arms, in declaration order, each followed by `, `.
pub open spec fn spec_arms_code(ty: Seq<char>, vs: Seq<VariantView>) -> Seq<char>
    decreases vs.len(),
{
    if vs.len() == 0 {
        Seq::empty()
    } else {
        spec_arms_code(ty, vs.drop_last()) + spec_arm_code(ty, vs.last()) + ", "@
    }
}

/// The whole dispatch of the tagged union's duplicate.
pub open spec fn spec_enum_code(ty: Seq<char>, vs: Seq<VariantView>) -> Seq<char> {
    "match self { "@ + spec_arms_code(ty, vs) + "}"@
}

fn binder_list(k: usize) -> (r: String)
    ensures
        r@ == spec_binder_list(k as nat),
{
    let mut s = String::new();
    let mut i: usize = 0;
    while i < k
        invariant
            i <= k,
            s@ == spec_binder_list(i as nat),
        decreases k - i,
    {
        if i > 0 {
            s.append(", ");
        }
        s.append("v");
        let d = dec_str(i);
        s.append(d.as_str());
        i += 1;
        proof {
            assert(s@ =~= spec_binder_list(i as nat));
        }
    }
    s
}

fn cloned_binder_list(k: usize) -> (r: String)
    ensures
        r@ == spec_cloned_binder_list(k as nat),
{
    let mut s = String::new();
    let mut i: usize = 0;
    while i < k
        invariant
            i <= k,
            s@ == spec_cloned_binder_list(i as nat),
        decreases k - i,
    {
        if i > 0 {
            s.append(", ");
        }
        s.append("v");
        let d = dec_str(i);
        s.append(d.as_str());
        s.append(".clone()");
        i += 1;
        proof {
            assert(s@ =~= spec_cloned_binder_list(i as nat));
        }
    }
    s
}

fn name_list(names: &Vec<String>) -> (r: String)
    ensures
        r@ == spec_name_list(names@.map_values(|x: String| x@)),
{
    let ghost vn = names@.map_values(|x: String| x@);
    let mut s = String::new();
    let mut i: usize = 0;
    while i < names.len()
        invariant
            i <= names.len(),
            vn == names@.map_values(|x: String| x@),
            s@ == spec_name_list(vn.take(i as int)),
        decreases names.len() - i,
    {
        if i > 0 {
            s.append(", ");
        }
        s.append(names[i].as_str());
        i += 1;
        proof {
            assert(vn.take(i as int).drop_last() =~= vn.take(i - 1));
            assert(s@ =~= spec_name_list(vn.take(i as int)));
        }
    }
    proof {
        assert(vn.take(names.len() as int) =~= vn);
    }
    s
}

fn named_clone_list(names: &Vec<String>) -> (r: String)
    ensures
        r@ == spec_named_clone_list(names@.map_values(|x: String| x@)),
{
    let ghost vn = names@.map_values(|x: String| x@);
    let mut s = String::new();
    let mut i: usize = 0;
    while i < names.len()
        invariant
            i <= names.len(),
            vn == names@.map_values(|x: String| x@),
            s@ == spec_named_clone_list(vn.take(i as int)),
        decreases names.len() - i,
    {
        if i > 0 {
            s.append(", ");
        }
        s.append(names[i].as_str());
        s.append(": ");
        s.append(names[i].as_str());
        s.append(".clone()");
        i += 1;
        proof {
            assert(vn.take(i as int).drop_last() =~= vn.take(i - 1));
            assert(s@ =~= spec_named_clone_list(vn.take(i as int)));
        }
    }
    proof {
        assert(vn.take(names.len() as int) =~= vn);
    }
    s
}

/// Emit the arm of a unit variant.
pub fn clone_unit_fields(identity: &str, variant_name: &str, mode: &CloneMode) -> (r: String)
    ensures
        r@ == spec_arm_with_mode(identity@, variant_name@, VariantShapeView::Unit, mode@),
{
    let mut s = String::from_str(identity);
    s.append("::");
    s.append(variant_name);
    s.append(" => ");
    match mode {
        CloneMode::Standard => {
            s.append(identity);
            s.append("::");
            s.append(variant_name);
        },
        CloneMode::Overridden(x) => {
            s.append(x.as_str());
        },
    }
    proof {
        assert(s@ =~= spec_arm_with_mode(
            identity@,
            variant_name@,
            VariantShapeView::Unit,
            mode@,
        ));
    }
    s
}

/// Emit the arm of a positional variant of `count` members.
pub fn clone_unnamed_fields(
    identity: &str,
    variant_name: &str,
    count: usize,
    mode: &CloneMode,
) -> (r: String)
    ensures
        r@ == spec_arm_with_mode(
            identity@,
            variant_name@,
            VariantShapeView::Positional(count as nat),
            mode@,
        ),
{
    let mut s = String::from_str(identity);
    s.append("::");
    s.append(variant_name);
    match mode {
        CloneMode::Standard => {
            s.append("(");
            let b = binder_list(count);
            s.append(b.as_str());
            s.append(") => ");
            s.append(identity);
            s.append("::");
            s.append(variant_name);
            s.append("(");
            let c = cloned_binder_list(count);
            s.append(c.as_str());
            s.append(")");
        },
        CloneMode::Overridden(x) => {
            s.append("(..) => ");
            s.append(x.as_str());
        },
    }
    proof {
        assert(s@ =~= spec_arm_with_mode(
            identity@,
            variant_name@,
            VariantShapeView::Positional(count as nat),
            mode@,
        ));
    }
    s
}

/// Emit the arm of a named variant.
pub fn clone_named_fields(
    identity: &str,
    variant_name: &str,
    names: &Vec<String>,
    mode: &CloneMode,
) -> (r: String)
    ensures
        r@ == spec_arm_with_mode(
            identity@,
            variant_name@,
            VariantShapeView::Named(names@.map_values(|x: String| x@)),
            mode@,
        ),
{
    let mut s = String::from_str(identity);
    s.append("::");
    s.append(variant_name);
    s.append(" { ");
    let pat = name_list(names);
    s.append(pat.as_str());
    s.append(" } => ");
    match mode {
        CloneMode::Standard => {
            s.append(identity);
            s.append("::");
            s.append(variant_name);
            s.append(" { ");
            let body = named_clone_list(names);
            s.append(body.as_str());
            s.append(" }");
        },
        CloneMode::Overridden(x) => {
            s.append(x.as_str());
        },
    }
    proof {
        assert(s@ =~= spec_arm_with_mode(
            identity@,
            variant_name@,
            VariantShapeView::Named(names@.map_values(|x: String| x@)),
            mode@,
        ));
    }
    s
}

/// Emit the dispatch arm of one variant whose mode is already resolved.
pub fn clone_variant_fields(identity: &str, variant: &Variant, mode: &CloneMode) -> (r: String)
    ensures
        r@ == spec_arm_with_mode(identity@, variant.name@, variant.shape@, mode@),
{
    match &variant.shape {
        VariantShape::Unit => clone_unit_fields(identity, variant.name.as_str(), mode),
        VariantShape::Positional(k) => clone_unnamed_fields(
            identity,
            variant.name.as_str(),
            *k,
            mode,
        ),
        VariantShape::Named(names) => clone_named_fields(
            identity,
            variant.name.as_str(),
            names,
            mode,
        ),
    }
}

/// Resolve one variant directive into its mode.
fn mode_of_directive(d: crate::model::Directive) -> (m: CloneMode)
    ensures
        m@ == spec_mode_of(d@),
{
    match resolve_strategy(d, CallReceiver::WholeVariant) {
        Strategy::RecurseClone => CloneMode::Standard,
        Strategy::EmitLiteral(f) => CloneMode::Overridden(f),
        Strategy::EmitDefault => CloneMode::Overridden(String::from_str("Default::default()")),
        Strategy::EmitFunctionCall(f, _) => {
            let mut x = f;
            x.append("(self)");
            CloneMode::Overridden(x)
        },
    }
}

/// Emit the whole dispatch of one tagged union's duplicate, or report the
/// first malformed variant marker.
pub fn clone_enum_type(identity: &str, variants: &Vec<Variant>) -> (r: Result<String, GenError>)
    ensures
        match r {
            Result::Ok(s) => spec_variants_ok(views_of(variants@)) && s@ == spec_enum_code(
                identity@,
                views_of(variants@),
            ),
            Result::Err(e) => !spec_variants_ok(views_of(variants@)) && exists|i: int|
                #[trigger] spec_first_bad_variant(views_of(variants@), i) && e@
                    == GenErrorView::MalformedDirective(ErrorSiteView::VariantMarker(i)),
        },
{
    let ghost vvs = views_of(variants@);
    let mut acc = String::from_str("match self { ");
    let mut i: usize = 0;
    while i < variants.len()
        invariant
            i <= variants.len(),
            vvs == views_of(variants@),
            forall|k: int| 0 <= k < i ==> spec_directive_ok(#[trigger] vvs[k].annotation),
            acc@ == "match self { "@ + spec_arms_code(identity@, vvs.take(i as int)),
        decreases variants.len() - i,
    {
        match parse_directive(&variants[i].annotation) {
            Option::Some(d) => {
                let mode = mode_of_directive(d);
                let arm = clone_variant_fields(identity, &variants[i], &mode);
                acc.append(arm.as_str());
                acc.append(", ");
                i += 1;
                proof {
                    assert(vvs.take(i as int).drop_last() =~= vvs.take(i - 1));
                    assert(vvs.take(i as int).last() == vvs[i - 1]);
                    assert(acc@ =~= "match self { "@ + spec_arms_code(
                        identity@,
                        vvs.take(i as int),
                    ));
                }
            },
            Option::None => {
                proof {
                    assert(spec_first_bad_variant(vvs, i as int));
                }
                return Result::Err(GenError::MalformedDirective(ErrorSite::VariantMarker(i)));
            },
        }
    }
    acc.append("}");
    proof {
        assert(vvs.take(variants.len() as int) =~= vvs);
    }
    Result::Ok(acc)
}

} // verus!
