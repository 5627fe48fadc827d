//! The deterministic matching order, as a mathematical model. A struct tries
//! its patterns in declaration order; an enum tries variants in declaration
//! order and, within a variant, its patterns in declaration order. The first
//! pattern that matches wins unconditionally: its captures are bound, and a
//! binding failure is the final answer, never a fall-through to a later
//! pattern or variant.

use vstd::prelude::*;

use crate::bind::bind_v;
use crate::engine::spec_captures;
use crate::error::ParseErrorV;
use crate::schema::{DeclV, VariantV};
use crate::value::ValueV;

verus! {

/// The position of the first entry of `s`, at `i` or after, that satisfies
/// `p`; `None` when no entry from `i` on does.
pub open spec fn first_where<A>(s: Seq<A>, p: spec_fn(A) -> bool, i: int) -> Option<int>
    decreases s.len() - i,
{
    if i < 0 || i >= s.len() {
        None
    } else if p(s[i]) {
        Some(i)
    } else {
        first_where(s, p, i + 1)
    }
}

/// Whether a pattern matches this input: the engine finds a match anywhere in
/// it.
pub open spec fn matches_at(input: Seq<char>) -> spec_fn(Seq<char>) -> bool {
    |p: Seq<char>| spec_captures(p, input) is Some
}

/// Whether any pattern of a variant matches this input; a variant with no
/// patterns matches nothing.
pub open spec fn variant_matches(input: Seq<char>) -> spec_fn(VariantV) -> bool {
    |v: VariantV| first_where(v.patterns, matches_at(input), 0) is Some
}

/// When no entry from `i` on is the first hit, no entry from `i` on
/// satisfies the predicate.
pub proof fn lemma_first_where_none<A>(s: Seq<A>, p: spec_fn(A) -> bool, i: int)
    requires
        0 <= i,
        first_where(s, p, i) is None,
    ensures
        forall|k: int| i <= k < s.len() ==> !#[trigger] p(s[k]),
    decreases s.len() - i,
{
    if i < s.len() {
        lemma_first_where_none(s, p, i + 1);
    }
}

/// A found position is in range, satisfies the predicate, and nothing
/// earlier (from `i` on) does.
pub proof fn lemma_first_where_found<A>(s: Seq<A>, p: spec_fn(A) -> bool, i: int, j: int)
    requires
        0 <= i,
        first_where(s, p, i) == Some(j),
    ensures
        i <= j < s.len(),
        p(s[j]),
        forall|k: int| i <= k < j ==> !#[trigger] p(s[k]),
    decreases s.len() - i,
{
    if i < s.len() && !p(s[i]) {
        lemma_first_where_found(s, p, i + 1, j);
    }
}

/// Entries known not to satisfy the predicate can be skipped: the first hit
/// from the start is the first hit from `i`.
pub proof fn lemma_first_where_skip<A>(s: Seq<A>, p: spec_fn(A) -> bool, i: int)
    requires
        0 <= i <= s.len(),
        forall|k: int| 0 <= k < i ==> !#[trigger] p(s[k]),
    ensures
        first_where(s, p, 0) == first_where(s, p, i),
    decreases i,
{
    if i > 0 {
        lemma_first_where_skip(s, p, i - 1);
    }
}

/// A position that satisfies the predicate, with none before it, is the
/// first hit.
pub proof fn lemma_first_where_exact<A>(s: Seq<A>, p: spec_fn(A) -> bool, j: int)
    requires
        0 <= j < s.len(),
        p(s[j]),
        forall|k: int| 0 <= k < j ==> !#[trigger] p(s[k]),
    ensures
        first_where(s, p, 0) == Some(j),
{
    lemma_first_where_skip(s, p, j);
}

/// What the winning pattern's match makes of the input: its captures bound
/// to the shape, the result tagged with the variant's name if one is given.
pub open spec fn match_outcome(
    shape: crate::schema::ShapeV,
    tag: Option<Seq<char>>,
    pattern: Seq<char>,
    input: Seq<char>,
) -> Result<ValueV, ParseErrorV> {
    match spec_captures(pattern, input) {
        None => Err(ParseErrorV::NoMatch { input }),
        Some(cs) => match bind_v(shape, cs) {
            Ok(sv) => Ok(
                match tag {
                    None => ValueV::Struct(sv),
                    Some(name) => ValueV::Variant { name, value: sv },
                },
            ),
            Err(be) => Err(ParseErrorV::Bind(be)),
        },
    }
}

/// What parsing an input against a declared type yields: the first matching
/// pattern's outcome, or `NoMatch` carrying the input when nothing matches.
pub open spec fn spec_parse(d: DeclV, input: Seq<char>) -> Result<ValueV, ParseErrorV> {
    match d {
        DeclV::Struct { shape, patterns } => match first_where(patterns, matches_at(input), 0) {
            None => Err(ParseErrorV::NoMatch { input }),
            Some(j) => match_outcome(shape, None, patterns[j], input),
        },
        DeclV::Enum { variants } => match first_where(variants, variant_matches(input), 0) {
            None => Err(ParseErrorV::NoMatch { input }),
            Some(i) => match first_where(variants[i].patterns, matches_at(input), 0) {
                None => Err(ParseErrorV::NoMatch { input }),
                Some(j) => match_outcome(
                    variants[i].shape,
                    Some(variants[i].name),
                    variants[i].patterns[j],
                    input,
                ),
            },
        },
    }
}

} // verus!
