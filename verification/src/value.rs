//! Constructed values: what a successful parse returns. A value mirrors the
//! shape it was parsed against — unit, positional fields, or named fields —
//! and, for an enum, carries the tag of the variant that matched.

use vstd::prelude::*;

use crate::schema::TypeRef;

verus! {

/// One converted field value, as the built-in conversion capability produces
/// it for each [`TypeRef`].
#[derive(Debug, Clone, PartialEq, Eq)]
pub enum FieldValue {
    /// Produced for [`TypeRef::Uint`] by parsing decimal digits.
    Uint(usize),
    /// Produced for [`TypeRef::Text`]: the captured text itself.
    Text(String),
}

/// One named field of a constructed value.
#[derive(Debug, Clone, PartialEq, Eq)]
pub struct NamedValue {
    pub name: String,
    pub value: FieldValue,
}

/// The fields of a constructed value, laid out as the shape dictates.
#[derive(Debug, Clone, PartialEq, Eq)]
pub enum ShapeValue {
    Unit,
    Positional(Vec<FieldValue>),
    Named(Vec<NamedValue>),
}

/// A fully constructed value: a struct's fields, or a variant tag with the
/// variant's fields.
#[derive(Debug, Clone, PartialEq, Eq)]
pub enum Value {
    Struct(ShapeValue),
    Variant { name: String, value: ShapeValue },
}

/// Mathematical model of a [`FieldValue`].
#[verifier::ext_equal]
pub enum ValV {
    Uint(usize),
    Text(Seq<char>),
}

/// Mathematical model of a [`ShapeValue`]; a named field is a pair of its
/// name and its value.
#[verifier::ext_equal]
pub enum ShapeValueV {
    Unit,
    Positional(Seq<ValV>),
    Named(Seq<(Seq<char>, ValV)>),
}

/// Mathematical model of a [`Value`].
#[verifier::ext_equal]
pub enum ValueV {
    Struct(ShapeValueV),
    Variant { name: Seq<char>, value: ShapeValueV },
}

impl View for FieldValue {
    type V = ValV;

    open spec fn view(&self) -> ValV {
        match self {
            FieldValue::Uint(n) => ValV::Uint(*n),
            FieldValue::Text(s) => ValV::Text(s@),
        }
    }
}

impl View for NamedValue {
    type V = (Seq<char>, ValV);

    open spec fn view(&self) -> (Seq<char>, ValV) {
        (self.name@, self.value@)
    }
}

impl View for ShapeValue {
    type V = ShapeValueV;

    open spec fn view(&self) -> ShapeValueV {
        match self {
            ShapeValue::Unit => ShapeValueV::Unit,
            ShapeValue::Positional(vs) => ShapeValueV::Positional(
                vs@.map_values(|v: FieldValue| v@),
            ),
            ShapeValue::Named(ns) => ShapeValueV::Named(ns@.map_values(|n: NamedValue| n@)),
        }
    }
}

impl View for Value {
    type V = ValueV;

    open spec fn view(&self) -> ValueV {
        match self {
            Value::Struct(sv) => ValueV::Struct(sv@),
            Value::Variant { name, value } => ValueV::Variant { name: name@, value: value@ },
        }
    }
}

} // verus!
