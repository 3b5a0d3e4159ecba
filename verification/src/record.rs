//! Synthesis for records: one `key: <code>` fragment per member, in
//! declaration order, assembled into a structure-literal construction.
//!
//! A named member is keyed by its name, a positional member by its decimal
//! index.  A function override on a record member receives a read-only
//! reference to the current value of that one member.

use vstd::prelude::*;

use crate::directive::parse_directive;
use crate::directive::spec_directive;
use crate::directive::spec_directive_ok;
use crate::model::Annotation;
use crate::model::AnnotationView;
use crate::model::CallReceiver;
use crate::model::ErrorSite;
use crate::model::ErrorSiteView;
use crate::model::FieldList;
use crate::model::FieldListView;
use crate::model::GenError;
use crate::model::GenErrorView;
use crate::model::NamedField;
use crate::model::NamedFieldView;
use crate::model::Strategy;
use crate::model::StrategyView;
use crate::strategy::resolve_strategy;
use crate::strategy::spec_resolve;
use crate::text::dec_str;
use crate::text::spec_dec;

verus! {

/// The code of one record member, keyed and addressed for its strategy.
pub open spec fn spec_key_code(key: Seq<char>, st: StrategyView) -> Seq<char> {
    match st {
        StrategyView::RecurseClone => key + ": self."@ + key + ".clone()"@,
        StrategyView::EmitLiteral(v) => key + ": "@ + v,
        StrategyView::EmitDefault => key + ": Default::default()"@,
        StrategyView::EmitFunctionCall(f, _) => key + ": "@ + f + "(&self."@ + key + ")"@,
    }
}

/// The code of one record member, from its raw annotation.
pub open spec fn spec_member_code(key: Seq<char>, a: AnnotationView) -> Seq<char> {
    spec_key_code(key, spec_resolve(spec_directive(a), CallReceiver::MemberRef))
}

/// The member fragments of a named record, each followed by `, `.
pub open spec fn spec_named_fields_code(fs: Seq<NamedFieldView>) -> Seq<char>
    decreases fs.len(),
{
    if fs.len() == 0 {
        Seq::empty()
    } else {
        spec_named_fields_code(fs.drop_last()) + spec_member_code(
            fs.last().name,
            fs.last().annotation,
        ) + ", "@
    }
}

/// The member fragments of a positional record, keyed by index.
pub open spec fn spec_positional_fields_code(a: Seq<AnnotationView>) -> Seq<char>
    decreases a.len(),
{
    if a.len() == 0 {
        Seq::empty()
    } else {
        spec_positional_fields_code(a.drop_last()) + spec_member_code(
            spec_dec((a.len() - 1) as nat),
            a.last(),
        ) + ", "@
    }
}

pub open spec fn spec_anns_ok(a: Seq<AnnotationView>) -> bool {
    forall|i: int| 0 <= i < a.len() ==> spec_directive_ok(#[trigger] a[i])
}

pub open spec fn spec_named_ok(fs: Seq<NamedFieldView>) -> bool {
    forall|i: int| 0 <= i < fs.len() ==> spec_directive_ok(#[trigger] fs[i].annotation)
}

/// Every member annotation of the record is free of fatal faults.
pub open spec fn spec_fields_ok(fl: FieldListView) -> bool {
    match fl {
        FieldListView::Unit => true,
        FieldListView::Positional(a) => spec_anns_ok(a),
        FieldListView::Named(f) => spec_named_ok(f),
    }
}

/// All member fragments of the record, in declaration order.
pub open spec fn spec_fields_code(fl: FieldListView) -> Seq<char> {
    match fl {
        FieldListView::Unit => Seq::empty(),
        FieldListView::Positional(a) => spec_positional_fields_code(a),
        FieldListView::Named(f) => spec_named_fields_code(f),
    }
}

/// Member `i` is the first one whose annotation is malformed.
pub open spec fn spec_first_bad_field(fl: FieldListView, i: int) -> bool {
    match fl {
        FieldListView::Unit => false,
        FieldListView::Positional(a) => 0 <= i < a.len() && !spec_directive_ok(a[i]) && forall|
            k: int,
        | 0 <= k < i ==> spec_directive_ok(#[trigger] a[k]),
        FieldListView::Named(f) => 0 <= i < f.len() && !spec_directive_ok(f[i].annotation)
            && forall|k: int| 0 <= k < i ==> spec_directive_ok(#[trigger] f[k].annotation),
    }
}

/// The whole construction expression of the record's duplicate: `Self`-keyed
/// for named and unit records, named after the type for positional records.
pub open spec fn spec_struct_code(name: Seq<char>, fl: FieldListView) -> Seq<char> {
    match fl {
        FieldListView::Unit => "Self { }"@,
        FieldListView::Named(_) => "Self { "@ + spec_fields_code(fl) + "}"@,
        FieldListView::Positional(_) => name + " { "@ + spec_fields_code(fl) + "}"@,
    }
}

/// Emit `key: <code>` for one member whose strategy is already resolved.
fn key_code(key: &str, st: Strategy) -> (r: String)
    ensures
        r@ == spec_key_code(key@, st@),
{
    let mut s = String::from_str(key);
    match st {
        Strategy::RecurseClone => {
            s.append(": self.");
            s.append(key);
            s.append(".clone()");
        },
        Strategy::EmitLiteral(v) => {
            s.append(": ");
            s.append(v.as_str());
        },
        Strategy::EmitDefault => {
            s.append(": Default::default()");
        },
        Strategy::EmitFunctionCall(f, _) => {
            s.append(": ");
            s.append(f.as_str());
            s.append("(&self.");
            s.append(key);
            s.append(")");
        },
    }
    s
}

/// Parse, resolve and emit one record member.
fn member_code(key: &str, a: &Annotation) -> (r: Option<String>)
    ensures
        match r {
            Option::Some(s) => spec_directive_ok(a@) && s@ == spec_member_code(key@, a@),
            Option::None => !spec_directive_ok(a@),
        },
{
    match parse_directive(a) {
        Option::Some(d) => Option::Some(
            key_code(key, resolve_strategy(d, CallReceiver::MemberRef)),
        ),
        Option::None => Option::None,
    }
}

/// Emit the member fragments of one record, or report the first malformed
/// member.
pub fn clone_fields(fields: &FieldList) -> (r: Result<String, GenError>)
    ensures
        match r {
            Result::Ok(s) => spec_fields_ok(fields@) && s@ == spec_fields_code(fields@),
            Result::Err(e) => !spec_fields_ok(fields@) && exists|i: int|
                #[trigger] spec_first_bad_field(fields@, i) && e@
                    == GenErrorView::MalformedDirective(ErrorSiteView::Field(i)),
        },
{
    match fields {
        FieldList::Unit => Result::Ok(String::new()),
        FieldList::Named(fs) => {
            let ghost vfs = fs@.map_values(|x: NamedField| x@);
            let mut acc = String::new();
            let mut i: usize = 0;
            while i < fs.len()
                invariant
                    i <= fs.len(),
                    vfs == fs@.map_values(|x: NamedField| x@),
                    fields@ == FieldListView::Named(vfs),
                    forall|k: int| 0 <= k < i ==> spec_directive_ok(
                        #[trigger] vfs[k].annotation,
                    ),
                    acc@ == spec_named_fields_code(vfs.take(i as int)),
                decreases fs.len() - i,
            {
                match member_code(fs[i].name.as_str(), &fs[i].annotation) {
                    Option::Some(code) => {
                        acc.append(code.as_str());
                        acc.append(", ");
                        proof {
                            assert(vfs.take(i + 1 as int).drop_last() =~= vfs.take(i as int));
                            assert(vfs.take(i + 1 as int).last() == vfs[i as int]);
                        }
                        i += 1;
                    },
                    Option::None => {
                        proof {
                            assert(spec_first_bad_field(fields@, i as int));
                        }
                        return Result::Err(
                            GenError::MalformedDirective(ErrorSite::Field(i)),
                        );
                    },
                }
            }
            proof {
                assert(vfs.take(fs.len() as int) =~= vfs);
            }
            Result::Ok(acc)
        },
        FieldList::Positional(anns) => {
            let ghost vas = anns@.map_values(|x: Annotation| x@);
            let mut acc = String::new();
            let mut i: usize = 0;
            while i < anns.len()
                invariant
                    i <= anns.len(),
                    vas == anns@.map_values(|x: Annotation| x@),
                    fields@ == FieldListView::Positional(vas),
                    forall|k: int| 0 <= k < i ==> spec_directive_ok(#[trigger] vas[k]),
                    acc@ == spec_positional_fields_code(vas.take(i as int)),
                decreases anns.len() - i,
            {
                let key = dec_str(i);
                match member_code(key.as_str(), &anns[i]) {
                    Option::Some(code) => {
                        acc.append(code.as_str());
                        acc.append(", ");
                        proof {
                            assert(vas.take(i + 1 as int).drop_last() =~= vas.take(i as int));
                            assert(vas.take(i + 1 as int).last() == vas[i as int]);
                        }
                        i += 1;
                    },
                    Option::None => {
                        proof {
                            assert(spec_first_bad_field(fields@, i as int));
                        }
                        return Result::Err(
                            GenError::MalformedDirective(ErrorSite::Field(i)),
                        );
                    },
                }
            }
            proof {
                assert(vas.take(anns.len() as int) =~= vas);
            }
            Result::Ok(acc)
        },
    }
}

/// Emit the whole construction expression of one record's duplicate.
pub fn clone_struct_type(identity: &str, fields: &FieldList) -> (r: Result<String, GenError>)
    ensures
        match r {
            Result::Ok(s) => spec_fields_ok(fields@) && s@ == spec_struct_code(
                identity@,
                fields@,
            ),
            Result::Err(e) => !spec_fields_ok(fields@) && exists|i: int|
                #[trigger] spec_first_bad_field(fields@, i) && e@
                    == GenErrorView::MalformedDirective(ErrorSiteView::Field(i)),
        },
{
    match fields {
        FieldList::Unit => Result::Ok(String::from_str("Self { }")),
        FieldList::Named(_) => {
            match clone_fields(fields) {
                Result::Ok(inner) => {
                    let mut s = String::from_str("Self { ");
                    s.append(inner.as_str());
                    s.append("}");
                    Result::Ok(s)
                },
                Result::Err(e) => Result::Err(e),
            }
        },
        FieldList::Positional(_) => {
            match clone_fields(fields) {
                Result::Ok(inner) => {
                    let mut s = String::from_str(identity);
                    s.append(" { ");
                    s.append(inner.as_str());
                    s.append("}");
                    Result::Ok(s)
                },
                Result::Err(e) => Result::Err(e),
            }
        },
    }
}

} // verus!
