//! The field binder: maps the captured substrings of one successful match
//! positionally onto a shape's fields. Field `i` takes capture group `i + 1`;
//! group 0, the whole match, is never bound, and groups beyond the fields are
//! ignored. Binding is all-or-nothing: the first absent group or failed
//! conversion, read left to right, is the error, and no partial value is
//! ever returned.

use vstd::prelude::*;

use crate::convert::{convert, spec_convert};
use crate::error::{BindError, BindErrorV, FieldId, FieldIdV};
use crate::schema::{Shape, ShapeV, TypeRef};
use crate::value::{FieldValue, NamedValue, ShapeValue, ShapeValueV, ValV};

verus! {

/// The fields of a shape, normalized: each with its identity — name or
/// position — and its declared type, in declaration order.
pub open spec fn fields_of(shape: ShapeV) -> Seq<(FieldIdV, TypeRef)> {
    match shape {
        ShapeV::Unit => Seq::empty(),
        ShapeV::Named(fs) => Seq::new(fs.len(), |i: int| (FieldIdV::Name(fs[i].name), fs[i].ty)),
        ShapeV::Positional(tys) => Seq::new(
            tys.len(),
            |i: int| (FieldIdV::Index(i), tys[i]),
        ),
    }
}

/// The capture group the field at position `i` requires: group `i + 1`, or
/// nothing when the pattern has no such group or it did not participate.
pub open spec fn group_for(caps: Seq<Option<Seq<char>>>, i: int) -> Option<Seq<char>> {
    if 0 <= i && i + 1 < caps.len() {
        caps[i + 1]
    } else {
        None
    }
}

/// What binding the single field at position `i` yields: its converted
/// value, or the error that names this exact field.
pub open spec fn bind_step(
    fields: Seq<(FieldIdV, TypeRef)>,
    caps: Seq<Option<Seq<char>>>,
    i: int,
) -> Result<ValV, BindErrorV> {
    match group_for(caps, i) {
        None => Err(BindErrorV::MissingGroup { index: i }),
        Some(text) => match spec_convert(fields[i].1, text) {
            Ok(v) => Ok(v),
            Err(msg) => Err(BindErrorV::FieldConversion { field: fields[i].0, message: msg }),
        },
    }
}

/// What binding the first `n` fields yields: their values in order, or the
/// error of the leftmost field that fails.
pub open spec fn bind_prefix(
    fields: Seq<(FieldIdV, TypeRef)>,
    caps: Seq<Option<Seq<char>>>,
    n: int,
) -> Result<Seq<ValV>, BindErrorV>
    decreases n,
{
    if n <= 0 {
        Ok(Seq::empty())
    } else {
        match bind_prefix(fields, caps, n - 1) {
            Err(e) => Err(e),
            Ok(pre) => match bind_step(fields, caps, n - 1) {
                Err(e) => Err(e),
                Ok(v) => Ok(pre.push(v)),
            },
        }
    }
}

/// Lays bound values out as the shape dictates: a unit value, a positional
/// tuple, or a named record pairing each field name with its value.
pub open spec fn assemble(shape: ShapeV, vals: Seq<ValV>) -> ShapeValueV {
    match shape {
        ShapeV::Unit => ShapeValueV::Unit,
        ShapeV::Positional(tys) => ShapeValueV::Positional(vals),
        ShapeV::Named(fs) => ShapeValueV::Named(
            Seq::new(fs.len(), |i: int| (fs[i].name, vals[i])),
        ),
    }
}

/// What binding a whole shape to the captures of one match yields: the
/// assembled value when every field binds, else the leftmost field's error.
pub open spec fn bind_v(shape: ShapeV, caps: Seq<Option<Seq<char>>>) -> Result<
    ShapeValueV,
    BindErrorV,
> {
    match bind_prefix(fields_of(shape), caps, fields_of(shape).len() as int) {
        Ok(vals) => Ok(assemble(shape, vals)),
        Err(e) => Err(e),
    }
}

/// Once some prefix of the fields fails, every longer prefix fails the same
/// way: the leftmost error is the error.
pub proof fn lemma_bind_prefix_err(
    fields: Seq<(FieldIdV, TypeRef)>,
    caps: Seq<Option<Seq<char>>>,
    n1: int,
    n2: int,
)
    requires
        0 <= n1 <= n2,
        bind_prefix(fields, caps, n1) is Err,
    ensures
        bind_prefix(fields, caps, n2) == bind_prefix(fields, caps, n1),
    decreases n2 - n1,
{
    if n1 < n2 {
        lemma_bind_prefix_err(fields, caps, n1, n2 - 1);
    }
}

/// Binds the captures of one successful match to the shape's fields,
/// all-or-nothing.
pub fn bind(shape: &Shape, caps: &Vec<Option<String>>) -> (r: Result<ShapeValue, BindError>)
    ensures
        match bind_v(shape@, caps.deep_view()) {
            Ok(sv) => r matches Ok(out) && out@ == sv,
            Err(be) => r matches Err(e) && e@ == be,
        },
{
    match shape {
        Shape::Unit => Ok(ShapeValue::Unit),
        Shape::Positional(tys) => {
            match bind_values_positional(tys, caps) {
                Ok(vals) => Ok(ShapeValue::Positional(vals)),
                Err(e) => Err(e),
            }
        },
        Shape::Named(fs) => {
            match bind_values_named(fs, caps) {
                Ok(nvals) => Ok(ShapeValue::Named(nvals)),
                Err(e) => Err(e),
            }
        },
    }
}

/// Looks the field at position `i` up in the captures and converts it,
/// reporting the error under the given field identity.
fn bind_one(
    ty: TypeRef,
    id: FieldId,
    caps: &Vec<Option<String>>,
    i: usize,
    Ghost(fields): Ghost<Seq<(FieldIdV, TypeRef)>>,
)
    -> (r: Result<FieldValue, BindError>)
    requires
        0 <= i < fields.len(),
        fields[i as int].1 == ty,
        fields[i as int].0 == id@,
    ensures
        match bind_step(fields, caps.deep_view(), i as int) {
            Ok(v) => r matches Ok(fv) && fv@ == v,
            Err(be) => r matches Err(e) && e@ == be,
        },
{
    let ghost capsv = caps.deep_view();
    let cl: usize = caps.len();
    if cl == 0 || i >= cl - 1 {
        assert(group_for(capsv, i as int) is None);
        return Err(BindError::MissingGroup { index: i });
    }
    match &caps[i + 1] {
        None => {
            assert(group_for(capsv, i as int) is None);
            Err(BindError::MissingGroup { index: i })
        },
        Some(text) => {
            assert(group_for(capsv, i as int) == Some(text@));
            match convert(ty, text.as_str()) {
                Ok(fv) => Ok(fv),
                Err(msg) => Err(BindError::FieldConversion { field: id, message: msg }),
            }
        },
    }
}

/// Binds all fields of a positional shape, left to right.
fn bind_values_positional(tys: &Vec<TypeRef>, caps: &Vec<Option<String>>) -> (r: Result<
    Vec<FieldValue>,
    BindError,
>)
    ensures
        ({
            let fields = fields_of(ShapeV::Positional(tys@));
            match bind_prefix(fields, caps.deep_view(), tys@.len() as int) {
                Ok(vals) => r matches Ok(out) && out@.map_values(|v: FieldValue| v@) == vals,
                Err(be) => r matches Err(e) && e@ == be,
            }
        }),
{
    let ghost fields = fields_of(ShapeV::Positional(tys@));
    let ghost capsv = caps.deep_view();
    let mut vals: Vec<FieldValue> = Vec::new();
    let mut i: usize = 0;
    proof {
        assert(vals@.map_values(|v: FieldValue| v@) =~= Seq::<ValV>::empty());
    }
    while i < tys.len()
        invariant
            0 <= i <= tys@.len(),
            fields == fields_of(ShapeV::Positional(tys@)),
            capsv == caps.deep_view(),
            fields.len() == tys@.len(),
            vals@.len() == i,
            bind_prefix(fields, capsv, i as int) == Ok::<Seq<ValV>, BindErrorV>(
                vals@.map_values(|v: FieldValue| v@),
            ),
        decreases tys@.len() - i,
    {
        let ty: TypeRef = tys[i];
        match bind_one(ty, FieldId::Index(i), caps, i, Ghost(fields)) {
            Err(e) => {
                proof {
                    lemma_bind_prefix_err(fields, capsv, (i + 1) as int, tys@.len() as int);
                }
                return Err(e);
            },
            Ok(fv) => {
                let ghost old_vals = vals@;
                vals.push(fv);
                proof {
                    assert(vals@.map_values(|v: FieldValue| v@) =~= old_vals.map_values(
                        |v: FieldValue| v@,
                    ).push(fv@));
                }
            },
        }
        i = i + 1;
    }
    Ok(vals)
}

/// Binds all fields of a named shape, left to right, pairing each value with
/// its field's name.
fn bind_values_named(fs: &Vec<crate::schema::Field>, caps: &Vec<Option<String>>) -> (r: Result<
    Vec<NamedValue>,
    BindError,
>)
    ensures
        ({
            let fsv = fs@.map_values(|f: crate::schema::Field| f@);
            let fields = fields_of(ShapeV::Named(fsv));
            match bind_prefix(fields, caps.deep_view(), fsv.len() as int) {
                Ok(vals) => r matches Ok(out) && out@.map_values(|n: NamedValue| n@) == Seq::new(
                    fsv.len(),
                    |i: int| (fsv[i].name, vals[i]),
                ),
                Err(be) => r matches Err(e) && e@ == be,
            }
        }),
{
    let ghost fsv = fs@.map_values(|f: crate::schema::Field| f@);
    let ghost fields = fields_of(ShapeV::Named(fsv));
    let ghost capsv = caps.deep_view();
    let mut nvals: Vec<NamedValue> = Vec::new();
    let mut i: usize = 0;
    while i < fs.len()
        invariant
            0 <= i <= fsv.len(),
            fsv == fs@.map_values(|f: crate::schema::Field| f@),
            fields == fields_of(ShapeV::Named(fsv)),
            capsv == caps.deep_view(),
            fields.len() == fsv.len() == fs@.len(),
            nvals@.len() == i,
            bind_prefix(fields, capsv, i as int) matches Ok(pre) && pre.len() == i && forall|
                k: int,
            |
                0 <= k < i ==> #[trigger] nvals@[k]@ == (fsv[k].name, pre[k]),
        decreases fsv.len() - i,
    {
        let ty: TypeRef = fs[i].ty;
        let name: String = fs[i].name.clone();
        assert(fsv[i as int].name == name@);
        match bind_one(ty, FieldId::Name(name.clone()), caps, i, Ghost(fields)) {
            Err(e) => {
                proof {
                    lemma_bind_prefix_err(fields, capsv, (i + 1) as int, fsv.len() as int);
                }
                return Err(e);
            },
            Ok(fv) => {
                nvals.push(NamedValue { name, value: fv });
            },
        }
        i = i + 1;
    }
    proof {
        let vals = bind_prefix(fields, capsv, fsv.len() as int)->Ok_0;
        assert(nvals@.map_values(|n: NamedValue| n@) =~= Seq::new(
            fsv.len(),
            |i: int| (fsv[i].name, vals[i]),
        ));
    }
    Ok(nvals)
}

} // verus!
