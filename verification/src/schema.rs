//! The schema model: a passive description of one declared type — its shape
//! (unit, named or positional fields) and the patterns attached to it or to
//! its enum variants. Schemas are built once by a front end and never change;
//! declaration order of variants, fields and patterns is significant.

use vstd::prelude::*;

verus! {

/// The declared type of one field, the key into the built-in conversion
/// capability.
#[derive(Clone, Copy, PartialEq, Eq, Structural, Debug)]
pub enum TypeRef {
    /// An unsigned machine integer; conversion parses decimal digits.
    Uint,
    /// Plain text; conversion always succeeds and keeps the captured text.
    Text,
}

/// One named field: its name and its declared type.
pub struct Field {
    pub name: String,
    pub ty: TypeRef,
}

/// The field layout of a struct or of one enum variant.
pub enum Shape {
    /// No fields at all.
    Unit,
    /// Fields identified by name, in declaration order.
    Named(Vec<Field>),
    /// Fields identified by position.
    Positional(Vec<TypeRef>),
}

/// One alternative of an enum: its name, its shape, and the patterns that
/// select it, in declaration order. A variant with no patterns never matches.
pub struct Variant {
    pub name: String,
    pub shape: Shape,
    pub patterns: Vec<String>,
}

/// One declared type with its attached patterns.
pub enum TypeDecl {
    /// A struct: one shape, with its patterns tried in declaration order.
    Struct { shape: Shape, patterns: Vec<String> },
    /// An enum: variants tried in declaration order, and within one variant
    /// its patterns in declaration order.
    Enum { variants: Vec<Variant> },
}

/// Mathematical model of a [`Field`].
pub struct FieldV {
    pub name: Seq<char>,
    pub ty: TypeRef,
}

/// Mathematical model of a [`Shape`].
#[verifier::ext_equal]
pub enum ShapeV {
    Unit,
    Named(Seq<FieldV>),
    Positional(Seq<TypeRef>),
}

/// Mathematical model of a [`Variant`].
#[verifier::ext_equal]
pub struct VariantV {
    pub name: Seq<char>,
    pub shape: ShapeV,
    pub patterns: Seq<Seq<char>>,
}

/// Mathematical model of a [`TypeDecl`].
#[verifier::ext_equal]
pub enum DeclV {
    Struct { shape: ShapeV, patterns: Seq<Seq<char>> },
    Enum { variants: Seq<VariantV> },
}

impl View for Field {
    type V = FieldV;

    open spec fn view(&self) -> FieldV {
        FieldV { name: self.name@, ty: self.ty }
    }
}

impl View for Shape {
    type V = ShapeV;

    open spec fn view(&self) -> ShapeV {
        match self {
            Shape::Unit => ShapeV::Unit,
            Shape::Named(fields) => ShapeV::Named(fields@.map_values(|f: Field| f@)),
            Shape::Positional(tys) => ShapeV::Positional(tys@),
        }
    }
}

impl View for Variant {
    type V = VariantV;

    open spec fn view(&self) -> VariantV {
        VariantV {
            name: self.name@,
            shape: self.shape@,
            patterns: self.patterns@.map_values(|p: String| p@),
        }
    }
}

impl View for TypeDecl {
    type V = DeclV;

    open spec fn view(&self) -> DeclV {
        match self {
            TypeDecl::Struct { shape, patterns } => DeclV::Struct {
                shape: shape@,
                patterns: patterns@.map_values(|p: String| p@),
            },
            TypeDecl::Enum { variants } => DeclV::Enum {
                variants: variants@.map_values(|v: Variant| v@),
            },
        }
    }
}

/// The patterns of the type, flattened: for a struct one row, for an enum one
/// row per variant, rows and entries in declaration order.
pub open spec fn pattern_rows(d: DeclV) -> Seq<Seq<Seq<char>>> {
    match d {
        DeclV::Struct { patterns, .. } => seq![patterns],
        DeclV::Enum { variants } => variants.map_values(|v: VariantV| v.patterns),
    }
}

} // verus!
