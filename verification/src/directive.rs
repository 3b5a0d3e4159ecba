//! The directive parser: classifies the raw annotation of one member into
//! exactly one `Directive`.
//!
//! A `marker(payload)` annotation is read as a comma-separated list of items
//! and scanned left to right for the first recognized key:
//!
//!   * `default` — duplicate to the member type's default value;
//!   * `clone_with = "f"` — duplicate through the function `f`.
//!
//! The first recognized key wins and the remainder of the payload is
//! ignored, so a directive never substitutes twice.  A `clone_with` whose
//! quoted string never closes is the one fatal parse fault: generation for
//! the whole type aborts.  A payload with no recognized key is kept
//! verbatim: it is classified `Literal` when it parses as one well-formed
//! expression on its own and `Unrecognized` otherwise, and either way it is
//! replayed into the output unchanged.
//!
//! An older dialect of the same surface accepted `fn = f` with an unquoted
//! expression; that form is deprecated here and falls through to the
//! verbatim classes like any other unrecognized payload.

use vstd::prelude::*;

use crate::model::Directive;
use crate::model::DirectiveView;
use crate::model::Annotation;
use crate::model::AnnotationView;
use crate::scan::matches_at;
use crate::scan::spec_next_comma;
use crate::scan::spec_skip_string;
use crate::scan::spec_skip_ws;
use crate::scan::chars_of;
use crate::scan::next_comma;
use crate::scan::skip_string_from;
use crate::scan::skip_ws;
use crate::scan::word_at;
use crate::scan::lemma_next_comma_bounds;
use crate::scan::lemma_skip_ws_bounds;

verus! {

/// Whether the text parses as one well-formed Rust expression on its own.
/// The meaning of this name is fixed by `parses_as_expression` below.
pub uninterp spec fn is_expression(s: Seq<char>) -> bool;

/// Relies on syn::parse_str::<syn::Expr>: whether the whole text parses as
/// one Rust expression, a function of the text alone.
#[verifier::external_body]
fn parses_as_expression(s: &str) -> (r: bool)
    ensures
        r == is_expression(s@),
{
    syn::parse_str::<syn::Expr>(s).is_ok()
}

/// The word `default`.
pub open spec fn default_key() -> Seq<char> {
    seq!['d', 'e', 'f', 'a', 'u', 'l', 't']
}

/// The word `clone_with`.
pub open spec fn clone_with_key() -> Seq<char> {
    seq!['c', 'l', 'o', 'n', 'e', '_', 'w', 'i', 't', 'h']
}

/// What scanning the keyed sub-grammar produced.
pub enum KeyedOutcome {
    /// The item `default`.
    KeyDefault,
    /// The item `clone_with = "f"`; the quoted text, verbatim.
    KeyFunction(String),
    /// A `clone_with` item whose quoted string never closes.
    MalformedQuote,
    /// No recognized key anywhere in the payload.
    NoKey,
}

pub enum KeyedView {
    KeyDefault,
    KeyFunction(Seq<char>),
    MalformedQuote,
    NoKey,
}

impl View for KeyedOutcome {
    type V = KeyedView;

    open spec fn view(&self) -> KeyedView {
        match self {
            KeyedOutcome::KeyDefault => KeyedView::KeyDefault,
            KeyedOutcome::KeyFunction(s) => KeyedView::KeyFunction(s@),
            KeyedOutcome::MalformedQuote => KeyedView::MalformedQuote,
            KeyedOutcome::NoKey => KeyedView::NoKey,
        }
    }
}

/// The item starting at `j` (whitespace already skipped) is the key
/// `default`: the word, then nothing further in the item.
pub open spec fn spec_default_item(s: Seq<char>, j: int) -> bool {
    &&& matches_at(s, default_key(), j)
    &&& {
        let k = spec_skip_ws(s, j + 7);
        k == s.len() || s[k] == ','
    }
}

/// The item starting at `j` begins with the key `clone_with` followed by
/// `=`; what stands after decides between a function override and the one
/// fatal fault.
pub open spec fn spec_clone_with_item(s: Seq<char>, j: int) -> bool {
    &&& matches_at(s, clone_with_key(), j)
    &&& {
        let e = spec_skip_ws(s, j + 10);
        e < s.len() && s[e] == '='
    }
}

/// The outcome of a recognized `clone_with =` item: the quoted text, a
/// malformed-quote fault, or — when the value is not a quoted string at
/// all — no keyed match, so that the payload falls through verbatim.
pub open spec fn spec_clone_with_value(s: Seq<char>, j: int) -> KeyedView {
    let e = spec_skip_ws(s, j + 10);
    let v = spec_skip_ws(s, e + 1);
    if v < s.len() && s[v] == '"' {
        match spec_skip_string(s, v + 1) {
            Option::Some(q) => KeyedView::KeyFunction(s.subrange(v + 1, q - 1)),
            Option::None => KeyedView::MalformedQuote,
        }
    } else {
        KeyedView::NoKey
    }
}

/// Scan the items of the payload from the one starting at `i`: the first
/// recognized key wins.
pub open spec fn spec_keyed_from(s: Seq<char>, i: int) -> KeyedView
    decreases s.len() - i when 0 <= i <= s.len() via spec_keyed_from_decreases
{
    let j = spec_skip_ws(s, i);
    if spec_default_item(s, j) {
        KeyedView::KeyDefault
    } else if spec_clone_with_item(s, j) {
        spec_clone_with_value(s, j)
    } else {
        match spec_next_comma(s, j, 0, false, false) {
            Option::Some(ci) => spec_keyed_from(s, ci + 1),
            Option::None => KeyedView::NoKey,
        }
    }
}

#[via_fn]
proof fn spec_keyed_from_decreases(s: Seq<char>, i: int) {
    lemma_skip_ws_bounds(s, i);
    let j = spec_skip_ws(s, i);
    lemma_next_comma_bounds(s, j, 0, false, false);
}

/// What the keyed sub-grammar makes of the whole payload.
pub open spec fn spec_keyed(p: Seq<char>) -> KeyedView {
    spec_keyed_from(p, 0)
}

/// The payload carries no fatal fault.
pub open spec fn spec_payload_ok(p: Seq<char>) -> bool {
    !(spec_keyed(p) is MalformedQuote)
}

/// The directive a fault-free `marker(payload)` annotation denotes.
pub open spec fn spec_payload_directive(p: Seq<char>) -> DirectiveView {
    match spec_keyed(p) {
        KeyedView::KeyDefault => DirectiveView::DefaultValue,
        KeyedView::KeyFunction(f) => DirectiveView::FunctionOverride(f),
        KeyedView::MalformedQuote => DirectiveView::Unrecognized(p),
        KeyedView::NoKey => if is_expression(p) {
            DirectiveView::Literal(p)
        } else {
            DirectiveView::Unrecognized(p)
        },
    }
}

/// The annotation carries no fatal fault.
pub open spec fn spec_directive_ok(a: AnnotationView) -> bool {
    match a {
        AnnotationView::Payload(p) => spec_payload_ok(p),
        _ => true,
    }
}

/// The directive a fault-free annotation denotes.
pub open spec fn spec_directive(a: AnnotationView) -> DirectiveView {
    match a {
        AnnotationView::Absent => DirectiveView::Absent,
        AnnotationView::Bare => DirectiveView::Bare,
        AnnotationView::Value(v) => DirectiveView::Literal(v),
        AnnotationView::Payload(p) => spec_payload_directive(p),
    }
}

/// Scan a payload for its first recognized key.
fn payload_keyed(p: &str) -> (r: KeyedOutcome)
    ensures
        r@ == spec_keyed(p@),
{
    let n = p.unicode_len();
    let cs = chars_of(p, n);
    let default_word: Vec<char> = vec!['d', 'e', 'f', 'a', 'u', 'l', 't'];
    let clone_with_word: Vec<char> = vec!['c', 'l', 'o', 'n', 'e', '_', 'w', 'i', 't', 'h'];
    proof {
        assert(default_word@ =~= default_key());
        assert(clone_with_word@ =~= clone_with_key());
    }
    let mut i: usize = 0;
    loop
        invariant
            cs@ == p@,
            n == cs.len(),
            i <= n,
            default_word@ == default_key(),
            clone_with_word@ == clone_with_key(),
            spec_keyed(p@) == spec_keyed_from(cs@, i as int),
        decreases n - i,
    {
        let j = skip_ws(&cs, i);
        let is_default = word_at(&cs, j, &default_word) && {
            let k = skip_ws(&cs, j + 7);
            k == n || cs[k] == ','
        };
        if is_default {
            return KeyedOutcome::KeyDefault;
        }
        let is_clone_with = word_at(&cs, j, &clone_with_word) && {
            let e = skip_ws(&cs, j + 10);
            e < n && cs[e] == '='
        };
        if is_clone_with {
            let e = skip_ws(&cs, j + 10);
            let v = skip_ws(&cs, e + 1);
            if v < n && cs[v] == '"' {
                match skip_string_from(&cs, v + 1) {
                    Option::Some(q) => {
                        let frag = p.substring_char(v + 1, q - 1);
                        return KeyedOutcome::KeyFunction(String::from_str(frag));
                    },
                    Option::None => {
                        return KeyedOutcome::MalformedQuote;
                    },
                }
            } else {
                return KeyedOutcome::NoKey;
            }
        }
        match next_comma(&cs, j) {
            Option::Some(ci) => {
                i = ci + 1;
            },
            Option::None => {
                return KeyedOutcome::NoKey;
            },
        }
    }
}

/// Parse one raw annotation into its directive.  `None` reports the one
/// fatal fault: a `clone_with` whose quoted string never closes.
pub fn parse_directive(a: &Annotation) -> (r: Option<Directive>)
    ensures
        match r {
            Option::Some(d) => spec_directive_ok(a@) && d@ == spec_directive(a@),
            Option::None => !spec_directive_ok(a@),
        },
{
    match a {
        Annotation::Absent => Option::Some(Directive::Absent),
        Annotation::Bare => Option::Some(Directive::Bare),
        Annotation::Value(v) => Option::Some(Directive::Literal(String::from_str(v.as_str()))),
        Annotation::Payload(p) => match payload_keyed(p.as_str()) {
            KeyedOutcome::KeyDefault => Option::Some(Directive::DefaultValue),
            KeyedOutcome::KeyFunction(f) => Option::Some(Directive::FunctionOverride(f)),
            KeyedOutcome::MalformedQuote => Option::None,
            KeyedOutcome::NoKey => {
                if parses_as_expression(p.as_str()) {
                    Option::Some(Directive::Literal(String::from_str(p.as_str())))
                } else {
                    Option::Some(Directive::Unrecognized(String::from_str(p.as_str())))
                }
            },
        },
    }
}

} // verus!
