//! The laws of the matching order and the binder, stated once and proved
//! from the library's contracts: which pattern is selected, what a
//! successful parse returns, and which error a failed parse returns. Since
//! every outcome is a `Result`, a failed parse never exposes a partially
//! constructed value.

use vstd::prelude::*;

use crate::bind::{
    assemble, bind_prefix, bind_step, bind_v, fields_of, group_for, lemma_bind_prefix_err,
};
use crate::convert::spec_convert;
use crate::engine::spec_captures;
use crate::error::{BindErrorV, ParseErrorV};
use crate::matching::{
    first_where, lemma_first_where_exact, lemma_first_where_found, lemma_first_where_skip,
    match_outcome, matches_at, spec_parse, variant_matches,
};
use crate::schema::{pattern_rows, DeclV, ShapeV, VariantV};
use crate::value::{ShapeValueV, ValV, ValueV};

verus! {

/// When every one of the first `n` fields binds, the prefix binds.
proof fn lemma_bind_prefix_ok(
    fields: Seq<(crate::error::FieldIdV, crate::schema::TypeRef)>,
    caps: Seq<Option<Seq<char>>>,
    n: int,
)
    requires
        forall|i: int| 0 <= i < n ==> bind_step(fields, caps, i) is Ok,
    ensures
        bind_prefix(fields, caps, n) is Ok,
    decreases n,
{
    if n > 0 {
        lemma_bind_prefix_ok(fields, caps, n - 1);
    }
}

/// When the first `n` fields bind to the first `n` given values, the prefix
/// binds to exactly those values.
proof fn lemma_bind_prefix_values(
    fields: Seq<(crate::error::FieldIdV, crate::schema::TypeRef)>,
    caps: Seq<Option<Seq<char>>>,
    vals: Seq<ValV>,
    n: int,
)
    requires
        0 <= n <= vals.len(),
        forall|i: int|
            0 <= i < n ==> #[trigger] bind_step(fields, caps, i) == Ok::<ValV, BindErrorV>(vals[i]),
    ensures
        bind_prefix(fields, caps, n) == Ok::<Seq<ValV>, BindErrorV>(vals.take(n)),
    decreases n,
{
    if n > 0 {
        lemma_bind_prefix_values(fields, caps, vals, n - 1);
        assert(vals.take(n) =~= vals.take(n - 1).push(vals[n - 1]));
    } else {
        assert(vals.take(0) =~= Seq::<ValV>::empty());
    }
}

/// For a struct, the first pattern in declaration order that matches decides
/// the outcome: parsing yields exactly that pattern's match outcome, whether
/// or not binding later fails, and whether or not a later pattern would also
/// have matched.
pub proof fn lemma_struct_selects(d: DeclV, input: Seq<char>, j: int)
    requires
        d matches DeclV::Struct { shape, patterns } && ({
            &&& 0 <= j < patterns.len()
            &&& spec_captures(patterns[j], input) is Some
            &&& forall|k: int|
                0 <= k < j ==> spec_captures(#[trigger] patterns[k], input) is None
        }),
    ensures
        d matches DeclV::Struct { shape, patterns } ==> spec_parse(d, input) == match_outcome(
            shape,
            None,
            patterns[j],
            input,
        ),
{
    let patterns = d->Struct_patterns;
    assert((matches_at(input))(patterns[j]));
    assert forall|k: int| 0 <= k < j implies !#[trigger] (matches_at(input))(patterns[k]) by {
        assert(spec_captures(patterns[k], input) is None);
    }
    lemma_first_where_exact(patterns, matches_at(input), j);
}

/// For an enum, the first matching variant/pattern pair in declaration order
/// decides the outcome: parsing yields exactly that pattern's match outcome
/// for that variant, regardless of whether a later variant or pattern would
/// also have matched, and binding failure does not fall through.
pub proof fn lemma_enum_selects(d: DeclV, input: Seq<char>, vi: int, pj: int)
    requires
        d matches DeclV::Enum { variants } && ({
            &&& 0 <= vi < variants.len()
            &&& 0 <= pj < variants[vi].patterns.len()
            &&& spec_captures(variants[vi].patterns[pj], input) is Some
            &&& forall|k: int, l: int|
                0 <= k < vi && 0 <= l < variants[k].patterns.len() ==> spec_captures(
                    #[trigger] variants[k].patterns[l],
                    input,
                ) is None
            &&& forall|l: int|
                0 <= l < pj ==> spec_captures(#[trigger] variants[vi].patterns[l], input) is None
        }),
    ensures
        d matches DeclV::Enum { variants } ==> spec_parse(d, input) == match_outcome(
            variants[vi].shape,
            Some(variants[vi].name),
            variants[vi].patterns[pj],
            input,
        ),
{
    let variants = d->Enum_variants;
    assert forall|l: int|
        0 <= l < pj implies !#[trigger] (matches_at(input))(variants[vi].patterns[l]) by {
        assert(spec_captures(variants[vi].patterns[l], input) is None);
    }
    assert((matches_at(input))(variants[vi].patterns[pj]));
    lemma_first_where_exact(variants[vi].patterns, matches_at(input), pj);
    assert((variant_matches(input))(variants[vi]));
    assert forall|k: int| 0 <= k < vi implies !#[trigger] (variant_matches(input))(
        variants[k],
    ) by {
        let row = variants[k].patterns;
        assert forall|l: int| 0 <= l < row.len() implies !#[trigger] (matches_at(input))(
            row[l],
        ) by {
            assert(spec_captures(variants[k].patterns[l], input) is None);
        }
        lemma_first_where_skip(row, matches_at(input), row.len() as int);
    }
    lemma_first_where_exact(variants, variant_matches(input), vi);
}

/// For a struct, when the first matching pattern's captures all convert, the
/// parse succeeds with the assembled value whose field at each position is
/// exactly the conversion of capture group position + 1.
pub proof fn lemma_struct_parse_success(
    d: DeclV,
    input: Seq<char>,
    j: int,
    cs: Seq<Option<Seq<char>>>,
    vals: Seq<ValV>,
)
    requires
        d matches DeclV::Struct { shape, patterns } && ({
            &&& 0 <= j < patterns.len()
            &&& spec_captures(patterns[j], input) == Some(cs)
            &&& forall|k: int|
                0 <= k < j ==> spec_captures(#[trigger] patterns[k], input) is None
            &&& vals.len() == fields_of(shape).len()
            &&& forall|i: int|
                0 <= i < fields_of(shape).len() ==> (#[trigger] group_for(cs, i) matches Some(
                    text,
                ) && spec_convert(fields_of(shape)[i].1, text) == Ok::<ValV, Seq<char>>(vals[i]))
        }),
    ensures
        d matches DeclV::Struct { shape, patterns } ==> spec_parse(d, input) == Ok::<
            ValueV,
            ParseErrorV,
        >(ValueV::Struct(assemble(shape, vals))),
{
    let shape = d->Struct_shape;
    let fields = fields_of(shape);
    lemma_struct_selects(d, input, j);
    assert forall|i: int|
        0 <= i < fields.len() implies #[trigger] bind_step(fields, cs, i) == Ok::<
        ValV,
        BindErrorV,
    >(vals[i]) by {
        assert(group_for(cs, i) matches Some(text) && spec_convert(fields[i].1, text) == Ok::<
            ValV,
            Seq<char>,
        >(vals[i]));
    }
    lemma_bind_prefix_values(fields, cs, vals, fields.len() as int);
    assert(vals.take(fields.len() as int) =~= vals);
}

/// For an enum, when input matches variant `vi`'s pattern `pj` — the first
/// matching pair in declaration order — and its fields bind, the parse
/// returns a value tagged with that variant's name, regardless of whether a
/// later variant or pattern would also have matched.
pub proof fn lemma_enum_first_match_wins(
    d: DeclV,
    input: Seq<char>,
    vi: int,
    pj: int,
    sv: ShapeValueV,
)
    requires
        d matches DeclV::Enum { variants } && ({
            &&& 0 <= vi < variants.len()
            &&& 0 <= pj < variants[vi].patterns.len()
            &&& spec_captures(variants[vi].patterns[pj], input) matches Some(cs) && bind_v(
                variants[vi].shape,
                cs,
            ) == Ok::<ShapeValueV, BindErrorV>(sv)
            &&& forall|k: int, l: int|
                0 <= k < vi && 0 <= l < variants[k].patterns.len() ==> spec_captures(
                    #[trigger] variants[k].patterns[l],
                    input,
                ) is None
            &&& forall|l: int|
                0 <= l < pj ==> spec_captures(#[trigger] variants[vi].patterns[l], input) is None
        }),
    ensures
        d matches DeclV::Enum { variants } ==> spec_parse(d, input) == Ok::<ValueV, ParseErrorV>(
            ValueV::Variant { name: variants[vi].name, value: sv },
        ),
{
    lemma_enum_selects(d, input, vi, pj);
}

/// A variant with no patterns is never selected, whatever the input.
pub proof fn lemma_empty_variant_never_selected(
    variants: Seq<VariantV>,
    input: Seq<char>,
    vi: int,
)
    requires
        0 <= vi < variants.len(),
        variants[vi].patterns.len() == 0,
    ensures
        first_where(variants, variant_matches(input), 0) != Some(vi),
{
    if first_where(variants, variant_matches(input), 0) == Some(vi) {
        lemma_first_where_found(variants, variant_matches(input), 0, vi);
        assert((variant_matches(input))(variants[vi]));
        assert(first_where(variants[vi].patterns, matches_at(input), 0) is None);
    }
}

/// When no pattern of the declared type matches the input, the parse returns
/// `NoMatch` carrying that input — and, the outcome being an error, no value
/// is constructed at all.
pub proof fn lemma_no_match(d: DeclV, input: Seq<char>)
    requires
        forall|i: int, j: int|
            0 <= i < pattern_rows(d).len() && 0 <= j < pattern_rows(d)[i].len() ==> spec_captures(
                #[trigger] pattern_rows(d)[i][j],
                input,
            ) is None,
    ensures
        spec_parse(d, input) == Err::<ValueV, ParseErrorV>(ParseErrorV::NoMatch { input }),
{
    let rows = pattern_rows(d);
    match d {
        DeclV::Struct { shape, patterns } => {
            assert(rows[0] == patterns);
            assert forall|k: int|
                0 <= k < patterns.len() implies !#[trigger] (matches_at(input))(patterns[k]) by {
                assert(spec_captures(rows[0][k], input) is None);
            }
            lemma_first_where_skip(patterns, matches_at(input), patterns.len() as int);
        },
        DeclV::Enum { variants } => {
            assert forall|k: int|
                0 <= k < variants.len() implies !#[trigger] (variant_matches(input))(
                variants[k],
            ) by {
                let row = variants[k].patterns;
                assert(rows[k] == row);
                assert forall|l: int| 0 <= l < row.len() implies !#[trigger] (matches_at(input))(
                    row[l],
                ) by {
                    assert(spec_captures(rows[k][l], input) is None);
                }
                lemma_first_where_skip(row, matches_at(input), row.len() as int);
            }
            lemma_first_where_skip(variants, variant_matches(input), variants.len() as int);
        },
    }
}

/// When the leftmost failing field of a matched shape is a conversion
/// failure, binding reports that exact field with the conversion message,
/// and produces no value.
pub proof fn lemma_bind_first_conversion_error(
    shape: ShapeV,
    caps: Seq<Option<Seq<char>>>,
    k: int,
    text: Seq<char>,
    msg: Seq<char>,
)
    requires
        0 <= k < fields_of(shape).len(),
        forall|i: int| 0 <= i < k ==> #[trigger] bind_step(fields_of(shape), caps, i) is Ok,
        group_for(caps, k) == Some(text),
        spec_convert(fields_of(shape)[k].1, text) == Err::<ValV, Seq<char>>(msg),
    ensures
        bind_v(shape, caps) == Err::<ShapeValueV, BindErrorV>(
            BindErrorV::FieldConversion { field: fields_of(shape)[k].0, message: msg },
        ),
{
    let fields = fields_of(shape);
    lemma_bind_prefix_ok(fields, caps, k);
    assert(bind_step(fields, caps, k) == Err::<ValV, BindErrorV>(
        BindErrorV::FieldConversion { field: fields[k].0, message: msg },
    ));
    assert(bind_prefix(fields, caps, k + 1) is Err);
    lemma_bind_prefix_err(fields, caps, k + 1, fields.len() as int);
}

/// For a struct, when the first matching pattern's captures bind up to field
/// `k` and field `k`'s conversion fails, the parse returns exactly that
/// field's conversion error — even if every later field would have
/// converted — and no value is constructed.
pub proof fn lemma_struct_conversion_error(
    d: DeclV,
    input: Seq<char>,
    j: int,
    k: int,
    text: Seq<char>,
    msg: Seq<char>,
)
    requires
        d matches DeclV::Struct { shape, patterns } && ({
            &&& 0 <= j < patterns.len()
            &&& spec_captures(patterns[j], input) is Some
            &&& forall|kk: int|
                0 <= kk < j ==> spec_captures(#[trigger] patterns[kk], input) is None
            &&& 0 <= k < fields_of(shape).len()
            &&& forall|i: int|
                0 <= i < k ==> #[trigger] bind_step(
                    fields_of(shape),
                    spec_captures(patterns[j], input)->Some_0,
                    i,
                ) is Ok
            &&& group_for(spec_captures(patterns[j], input)->Some_0, k) == Some(text)
            &&& spec_convert(fields_of(shape)[k].1, text) == Err::<ValV, Seq<char>>(msg)
        }),
    ensures
        d matches DeclV::Struct { shape, patterns } ==> spec_parse(d, input) == Err::<
            ValueV,
            ParseErrorV,
        >(ParseErrorV::Bind(
            BindErrorV::FieldConversion { field: fields_of(shape)[k].0, message: msg },
        )),
{
    let shape = d->Struct_shape;
    let patterns = d->Struct_patterns;
    let cs = spec_captures(patterns[j], input)->Some_0;
    lemma_struct_selects(d, input, j);
    lemma_bind_first_conversion_error(shape, cs, k, text, msg);
}

/// For an enum, the same holds for the first matching variant/pattern pair:
/// a conversion failure in its shape is the parse's error, naming that exact
/// field, and no later variant is tried.
pub proof fn lemma_enum_conversion_error(
    d: DeclV,
    input: Seq<char>,
    vi: int,
    pj: int,
    k: int,
    text: Seq<char>,
    msg: Seq<char>,
)
    requires
        d matches DeclV::Enum { variants } && ({
            &&& 0 <= vi < variants.len()
            &&& 0 <= pj < variants[vi].patterns.len()
            &&& spec_captures(variants[vi].patterns[pj], input) is Some
            &&& forall|kk: int, l: int|
                0 <= kk < vi && 0 <= l < variants[kk].patterns.len() ==> spec_captures(
                    #[trigger] variants[kk].patterns[l],
                    input,
                ) is None
            &&& forall|l: int|
                0 <= l < pj ==> spec_captures(#[trigger] variants[vi].patterns[l], input) is None
            &&& 0 <= k < fields_of(variants[vi].shape).len()
            &&& forall|i: int|
                0 <= i < k ==> #[trigger] bind_step(
                    fields_of(variants[vi].shape),
                    spec_captures(variants[vi].patterns[pj], input)->Some_0,
                    i,
                ) is Ok
            &&& group_for(spec_captures(variants[vi].patterns[pj], input)->Some_0, k) == Some(text)
            &&& spec_convert(fields_of(variants[vi].shape)[k].1, text) == Err::<ValV, Seq<char>>(
                msg,
            )
        }),
    ensures
        d matches DeclV::Enum { variants } ==> spec_parse(d, input) == Err::<ValueV, ParseErrorV>(
            ParseErrorV::Bind(
                BindErrorV::FieldConversion {
                    field: fields_of(variants[vi].shape)[k].0,
                    message: msg,
                },
            ),
        ),
{
    let variants = d->Enum_variants;
    let cs = spec_captures(variants[vi].patterns[pj], input)->Some_0;
    lemma_enum_selects(d, input, vi, pj);
    lemma_bind_first_conversion_error(variants[vi].shape, cs, k, text, msg);
}

} // verus!
