//! The parser: a pattern registry plus the match engine. [`Parser::new`]
//! compiles every pattern of a declared type exactly once, in declaration
//! order, and keeps the matchers for the life of the parser; a malformed
//! pattern is a configuration error reported there and never retried.
//! [`Parser::parse`] only reads the registry — it never compiles — so
//! repeated calls reuse every matcher, and independent calls may share the
//! parser read-only.

use vstd::prelude::*;

use crate::bind::bind;
use crate::engine::{spec_captures, spec_compile, Matcher};
use crate::error::{CompileError, ParseError, ParseErrorV};
use crate::matching::{
    first_where, lemma_first_where_exact, lemma_first_where_found, lemma_first_where_none,
    lemma_first_where_skip,
    matches_at, spec_parse, variant_matches,
};
use crate::schema::{pattern_rows, DeclV, TypeDecl};
use crate::value::{Value, ValueV};

verus! {

/// Whether a pattern is one the engine rejects.
pub open spec fn fails_compile() -> spec_fn(Seq<char>) -> bool {
    |p: Seq<char>| spec_compile(p) is Err
}

/// Whether a row of patterns contains one the engine rejects.
pub open spec fn row_fails() -> spec_fn(Seq<Seq<char>>) -> bool {
    |row: Seq<Seq<char>>| first_where(row, fails_compile(), 0) is Some
}

/// Every pattern of the declared type is a valid regular expression.
pub open spec fn all_compile(d: DeclV) -> bool {
    forall|i: int, j: int|
        0 <= i < pattern_rows(d).len() && 0 <= j < pattern_rows(d)[i].len() ==> spec_compile(
            #[trigger] pattern_rows(d)[i][j],
        ) is Ok
}

/// The first pattern, in declaration order, that the engine rejects.
pub open spec fn first_uncompilable(d: DeclV) -> Option<(int, int)> {
    match first_where(pattern_rows(d), row_fails(), 0) {
        None => None,
        Some(i) => match first_where(pattern_rows(d)[i], fails_compile(), 0) {
            None => None,
            Some(j) => Some((i, j)),
        },
    }
}

/// A compiled parser for one declared type: the declaration and, aligned
/// with its pattern rows, the matchers compiled from them.
pub struct Parser {
    decl: TypeDecl,
    rows: Vec<Vec<Matcher>>,
}

impl Parser {
    /// The declared type this parser was built for.
    pub closed spec fn decl_view(&self) -> DeclV {
        self.decl@
    }

    /// The registry is aligned with the declaration: one row of matchers per
    /// pattern row, each matcher compiled from the pattern at its place.
    pub closed spec fn wf(&self) -> bool {
        let rows = pattern_rows(self.decl_view());
        &&& self.rows@.len() == rows.len()
        &&& forall|i: int|
            0 <= i < rows.len() ==> (#[trigger] self.rows@[i])@.len() == rows[i].len()
        &&& forall|i: int, j: int|
            0 <= i < rows.len() && 0 <= j < rows[i].len() ==> (#[trigger] self.rows@[i]@[j]).src()
                == rows[i][j]
    }

    /// Compiles one row of patterns, in order, stopping at the first one the
    /// engine rejects.
    fn compile_row(patterns: &Vec<String>) -> (r: Result<Vec<Matcher>, CompileError>)
        ensures
            ({
                let row = patterns@.map_values(|p: String| p@);
                match r {
                    Ok(ms) => ms@.len() == row.len() && (forall|j: int|
                        0 <= j < row.len() ==> (#[trigger] ms@[j]).src() == row[j]) && first_where(
                        row,
                        fails_compile(),
                        0,
                    ) is None,
                    Err(e) => first_where(row, fails_compile(), 0) matches Some(j)
                        && e.pattern@ == row[j] && (spec_compile(row[j]) matches Err(m)
                        && e.message@ == m),
                }
            }),
    {
        let ghost row = patterns@.map_values(|p: String| p@);
        let mut ms: Vec<Matcher> = Vec::new();
        let mut j: usize = 0;
        while j < patterns.len()
            invariant
                0 <= j <= row.len(),
                row == patterns@.map_values(|p: String| p@),
                ms@.len() == j,
                forall|k: int| 0 <= k < j ==> (#[trigger] ms@[k]).src() == row[k],
                forall|k: int| 0 <= k < j ==> !#[trigger] (fails_compile())(row[k]),
            decreases row.len() - j,
        {
            let pattern: &String = &patterns[j];
            match Matcher::compile(pattern.as_str()) {
                Ok(m) => {
                    ms.push(m);
                },
                Err(message) => {
                    proof {
                        assert((fails_compile())(row[j as int]));
                        lemma_first_where_exact(row, fails_compile(), j as int);
                    }
                    return Err(CompileError { pattern: pattern.clone(), message });
                },
            }
            j = j + 1;
        }
        proof {
            lemma_first_where_skip(row, fails_compile(), row.len() as int);
        }
        Ok(ms)
    }

    /// Compiles every pattern row of the declaration, in declaration order,
    /// stopping at the first pattern the engine rejects.
    fn compile_rows(decl: &TypeDecl) -> (r: Result<Vec<Vec<Matcher>>, CompileError>)
        ensures
            ({
                let rows = pattern_rows(decl@);
                match r {
                    Ok(built) => built@.len() == rows.len() && (forall|i: int|
                        0 <= i < rows.len() ==> (#[trigger] built@[i])@.len() == rows[i].len())
                        && (forall|i: int, j: int|
                        0 <= i < rows.len() && 0 <= j < rows[i].len()
                            ==> (#[trigger] built@[i]@[j]).src() == rows[i][j]) && (forall|i: int|
                        0 <= i < rows.len() ==> first_where(
                            #[trigger] rows[i],
                            fails_compile(),
                            0,
                        ) is None),
                    Err(e) => first_uncompilable(decl@) matches Some((i, j))
                        && e.pattern@ == rows[i][j] && (spec_compile(e.pattern@) matches Err(m)
                        && e.message@ == m),
                }
            }),
    {
        let ghost rows = pattern_rows(decl@);
        match decl {
            TypeDecl::Struct { shape, patterns } => {
                match Self::compile_row(patterns) {
                    Ok(ms) => {
                        let mut built: Vec<Vec<Matcher>> = Vec::new();
                        built.push(ms);
                        assert(rows.len() == 1 && rows[0] == patterns@.map_values(|p: String| p@));
                        Ok(built)
                    },
                    Err(e) => {
                        proof {
                            assert((row_fails())(rows[0]));
                            lemma_first_where_exact(rows, row_fails(), 0);
                        }
                        Err(e)
                    },
                }
            },
            TypeDecl::Enum { variants } => {
                let mut built: Vec<Vec<Matcher>> = Vec::new();
                let mut i: usize = 0;
                proof {
                    assert(rows =~= variants@.map_values(|v: crate::schema::Variant| v@)
                        .map_values(|v: crate::schema::VariantV| v.patterns));
                }
                while i < variants.len()
                    invariant
                        0 <= i <= variants@.len(),
                        rows == pattern_rows(decl@),
                        rows.len() == variants@.len(),
                        forall|k: int|
                            0 <= k < rows.len() ==> #[trigger] rows[k] == variants@[k].patterns@
                                .map_values(|p: String| p@),
                        built@.len() == i,
                        forall|k: int|
                            0 <= k < i ==> (#[trigger] built@[k])@.len() == rows[k].len(),
                        forall|k: int, j: int|
                            0 <= k < i && 0 <= j < rows[k].len()
                                ==> (#[trigger] built@[k]@[j]).src() == rows[k][j],
                        forall|k: int|
                            0 <= k < i ==> first_where(
                                #[trigger] rows[k],
                                fails_compile(),
                                0,
                            ) is None,
                    decreases variants@.len() - i,
                {
                    match Self::compile_row(&variants[i].patterns) {
                        Ok(ms) => {
                            built.push(ms);
                        },
                        Err(e) => {
                            proof {
                                assert((row_fails())(rows[i as int]));
                                assert(forall|k: int|
                                    0 <= k < i ==> !#[trigger] (row_fails())(rows[k]));
                                lemma_first_where_exact(rows, row_fails(), i as int);
                            }
                            return Err(e);
                        },
                    }
                    i = i + 1;
                }
                Ok(built)
            },
        }
    }

    /// Builds the parser: compiles every pattern of the declaration exactly
    /// once, in declaration order. Returns the parser when every pattern is a
    /// valid regular expression; otherwise the first rejected pattern, in
    /// declaration order, with the engine's description — a configuration
    /// error, not retried.
    pub fn new(decl: TypeDecl) -> (r: Result<Parser, CompileError>)
        ensures
            r is Ok <==> all_compile(decl@),
            r matches Ok(p) ==> p.wf() && p.decl_view() == decl@,
            r matches Err(e) ==> (first_uncompilable(decl@) matches Some((i, j))
                && e.pattern@ == pattern_rows(decl@)[i][j] && (spec_compile(
                e.pattern@,
            ) matches Err(m) && e.message@ == m)),
    {
        let ghost rows = pattern_rows(decl@);
        match Self::compile_rows(&decl) {
            Ok(built) => {
                proof {
                    assert forall|i: int, j: int|
                        0 <= i < rows.len() && 0 <= j < rows[i].len() implies spec_compile(
                        #[trigger] rows[i][j],
                    ) is Ok by {
                        lemma_first_where_none(rows[i], fails_compile(), 0);
                        assert(!(fails_compile())(rows[i][j]));
                    }
                }
                Ok(Parser { decl, rows: built })
            },
            Err(e) => {
                proof {
                    let (i, j) = first_uncompilable(decl@)->Some_0;
                    lemma_first_where_found(rows, row_fails(), 0, i);
                    lemma_first_where_found(rows[i], fails_compile(), 0, j);
                    assert(spec_compile(rows[i][j]) is Err);
                    assert(!all_compile(decl@));
                }
                Err(e)
            },
        }
    }

    /// Tries one row of matchers against the input, in order, returning the
    /// position of the first that matches together with its captures.
    fn try_row(row: &Vec<Matcher>, input: &str, Ghost(rowv): Ghost<Seq<Seq<char>>>) -> (r: Option<
        (usize, Vec<Option<String>>),
    >)
        requires
            row@.len() == rowv.len(),
            forall|j: int| 0 <= j < rowv.len() ==> (#[trigger] row@[j]).src() == rowv[j],
        ensures
            r is None ==> first_where(rowv, matches_at(input@), 0) is None,
            r matches Some((j, caps)) ==> (first_where(rowv, matches_at(input@), 0) == Some(
                j as int,
            ) && (spec_captures(rowv[j as int], input@) matches Some(cs) && caps.deep_view()
                == cs)),
    {
        let mut j: usize = 0;
        while j < row.len()
            invariant
                0 <= j <= rowv.len(),
                row@.len() == rowv.len(),
                forall|k: int| 0 <= k < rowv.len() ==> (#[trigger] row@[k]).src() == rowv[k],
                forall|k: int| 0 <= k < j ==> !#[trigger] (matches_at(input@))(rowv[k]),
            decreases rowv.len() - j,
        {
            match row[j].find_captures(input) {
                Some(caps) => {
                    proof {
                        assert((matches_at(input@))(rowv[j as int]));
                        lemma_first_where_exact(rowv, matches_at(input@), j as int);
                    }
                    return Some((j, caps));
                },
                None => {
                    assert(!(matches_at(input@))(rowv[j as int]));
                },
            }
            j = j + 1;
        }
        proof {
            lemma_first_where_skip(rowv, matches_at(input@), rowv.len() as int);
        }
        None
    }

    /// Parses one input string against the declared type: patterns are tried
    /// in declaration order, the first match wins unconditionally, its
    /// captures are bound positionally to the shape's fields, and the result
    /// — value, `NoMatch`, or binding error — is exactly what the matching
    /// model prescribes. The registry is only read: nothing is compiled here.
    pub fn parse(&self, input: &str) -> (r: Result<Value, ParseError>)
        requires
            self.wf(),
        ensures
            match spec_parse(self.decl_view(), input@) {
                Ok(v) => r matches Ok(out) && out@ == v,
                Err(pe) => r matches Err(e) && e@ == pe,
            },
    {
        let ghost dv = self.decl_view();
        let ghost rows = pattern_rows(dv);
        match &self.decl {
            TypeDecl::Struct { shape, patterns } => {
                let ghost patternsv = patterns@.map_values(|p: String| p@);
                assert(rows.len() == 1 && rows[0] == patternsv);
                match Self::try_row(&self.rows[0], input, Ghost(patternsv)) {
                    None => Err(ParseError::NoMatch { input: input.to_owned() }),
                    Some((j, caps)) => {
                        match bind(shape, &caps) {
                            Ok(sv) => Ok(Value::Struct(sv)),
                            Err(be) => Err(ParseError::Bind(be)),
                        }
                    },
                }
            },
            TypeDecl::Enum { variants } => {
                let ghost variantsv = variants@.map_values(|v: crate::schema::Variant| v@);
                proof {
                    assert(rows =~= variantsv.map_values(|v: crate::schema::VariantV| v.patterns));
                }
                let mut i: usize = 0;
                while i < variants.len()
                    invariant
                        self.wf(),
                        0 <= i <= variants@.len(),
                        dv == self.decl_view(),
                        rows == pattern_rows(dv),
                        dv matches DeclV::Enum { variants: vv } && vv == variantsv,
                        variantsv == variants@.map_values(|v: crate::schema::Variant| v@),
                        rows.len() == variants@.len() == variantsv.len(),
                        forall|k: int|
                            0 <= k < rows.len() ==> #[trigger] rows[k] == variantsv[k].patterns,
                        forall|k: int|
                            0 <= k < i ==> !#[trigger] (variant_matches(input@))(variantsv[k]),
                    decreases variants@.len() - i,
                {
                    let ghost rowv = variantsv[i as int].patterns;
                    match Self::try_row(&self.rows[i], input, Ghost(rowv)) {
                        Some((j, caps)) => {
                            proof {
                                assert((variant_matches(input@))(variantsv[i as int]));
                                lemma_first_where_exact(
                                    variantsv,
                                    variant_matches(input@),
                                    i as int,
                                );
                            }
                            let name: String = variants[i].name.clone();
                            match bind(&variants[i].shape, &caps) {
                                Ok(sv) => {
                                    return Ok(Value::Variant { name, value: sv });
                                },
                                Err(be) => {
                                    return Err(ParseError::Bind(be));
                                },
                            }
                        },
                        None => {
                            assert(!(variant_matches(input@))(variantsv[i as int]));
                        },
                    }
                    i = i + 1;
                }
                proof {
                    lemma_first_where_skip(variantsv, variant_matches(input@), variantsv.len() as int);
                }
                Err(ParseError::NoMatch { input: input.to_owned() })
            },
        }
    }
}

} // verus!
