//! Schema loading: structured-text rows become strongly typed `TraitSchema`
//! records. Parsing the transport text into untyped rows is the job of
//! `serde_json` behind a trusted boundary; everything the loader then checks
//! about a row is verified here.

use vstd::prelude::*;
use vstd::string::StringExecFns;

use crate::types::{ArgsType, Error, Pattern, SchemaModel, TraitSchema};

verus! {

/// `serde_json`'s structured-value type, declared so that the conversion step
/// below can take it. It is opaque here: nothing about its content is stated.
#[verifier::external_type_specification]
#[verifier::external_body]
pub struct ExValue(serde_json::Value);

/// One untyped field of a schema row, reduced to the shapes the loader can
/// read: text, a non-negative integer, or a list of texts. Any other
/// structured value is `Other` and fails the load.
#[derive(Debug, Clone, PartialEq, Eq)]
pub enum SchemaPrimitive {
    Text(String),
    Uint(u64),
    TextList(Vec<String>),
    Other,
}

/// What parsing the schema transport bytes yields: `None` when the bytes are
/// not a structured-text array of arrays, otherwise each row's fields reduced
/// to `SchemaPrimitive`s. Named, not defined: it stands for what `serde_json`
/// computes, a fixed function of the bytes alone.
pub uninterp spec fn spec_schema_rows(bytes: Seq<u8>) -> Option<Vec<Vec<SchemaPrimitive>>>;

/// Relies on `serde_json::from_slice`: it parses the bytes as an array of
/// arrays of structured values, deterministically, or fails. Each inner value
/// is reduced by `primitive_of_value`.
#[verifier::external_body]
pub(crate) fn parse_schema_rows(bytes: &[u8]) -> (r: Option<Vec<Vec<SchemaPrimitive>>>)
    ensures
        r == spec_schema_rows(bytes@),
{
    let rows: Vec<Vec<serde_json::Value>> = match serde_json::from_slice(bytes) {
        Ok(rows) => rows,
        Err(_) => return None,
    };
    Some(rows.into_iter().map(|row| row.into_iter().map(primitive_of_value).collect()).collect())
}

/// Relies on `serde_json::Value` and `serde_json::Number::as_u64`: the
/// conversion step of `parse_schema_rows`, telling the structured-value
/// variants apart. Text, unsigned integers and lists of texts keep their
/// content; every other shape becomes `Other`. Its behaviour is part of what
/// `spec_schema_rows` names.
#[verifier::external_body]
fn primitive_of_value(v: serde_json::Value) -> SchemaPrimitive {
    match v {
        serde_json::Value::String(s) => SchemaPrimitive::Text(s),
        serde_json::Value::Number(n) => n.as_u64().map_or(
            SchemaPrimitive::Other,
            SchemaPrimitive::Uint,
        ),
        serde_json::Value::Array(items) => items.into_iter().map(
            |x| match x {
                serde_json::Value::String(s) => Some(s),
                _ => None,
            },
        ).collect::<Option<Vec<String>>>().map_or(SchemaPrimitive::Other, SchemaPrimitive::TextList),
        _ => SchemaPrimitive::Other,
    }
}

/// Which pattern a pattern field names: exactly one of the four enumerated
/// strings, case-sensitively.
pub open spec fn spec_pattern_of(s: Seq<char>) -> Option<Pattern> {
    if s == "raw"@ {
        Some(Pattern::Raw)
    } else if s == "range"@ {
        Some(Pattern::Range)
    } else if s == "options"@ {
        Some(Pattern::Options)
    } else if s == "utf8"@ {
        Some(Pattern::Utf8)
    } else {
        None
    }
}

/// Which value type a value-type field names: exactly one of the two
/// enumerated strings, case-sensitively.
pub open spec fn spec_args_type_of(s: Seq<char>) -> Option<ArgsType> {
    if s == "Number"@ {
        Some(ArgsType::Number)
    } else if s == "String"@ {
        Some(ArgsType::Str)
    } else {
        None
    }
}

/// What one schema row means: `[name, offset, length, pattern, value_type]`
/// with an optional trailing list of argument texts. A row of the wrong
/// length, with a field of the wrong shape, or with an unrecognized
/// enumerated string means nothing.
pub open spec fn spec_parse_row(row: Seq<SchemaPrimitive>) -> Option<SchemaModel> {
    if row.len() != 5 && row.len() != 6 {
        None
    } else {
        match (row[0], row[1], row[2], row[3], row[4]) {
            (
                SchemaPrimitive::Text(name),
                SchemaPrimitive::Uint(offset),
                SchemaPrimitive::Uint(len),
                SchemaPrimitive::Text(pat),
                SchemaPrimitive::Text(vt),
            ) => match (spec_pattern_of(pat@), spec_args_type_of(vt@)) {
                (Some(pattern), Some(value_type)) => {
                    if row.len() == 6 {
                        match row[5] {
                            SchemaPrimitive::TextList(args) => Some(
                                SchemaModel {
                                    name: name@,
                                    offset,
                                    len,
                                    pattern,
                                    value_type,
                                    args: Some(args.deep_view()),
                                },
                            ),
                            _ => None,
                        }
                    } else {
                        Some(
                            SchemaModel {
                                name: name@,
                                offset,
                                len,
                                pattern,
                                value_type,
                                args: None,
                            },
                        )
                    }
                },
                _ => None,
            },
            _ => None,
        }
    }
}

/// Whether every row of the pool parses.
pub open spec fn spec_rows_wellformed(rows: Seq<Vec<SchemaPrimitive>>) -> bool {
    forall|i: int| 0 <= i < rows.len() ==> spec_parse_row(#[trigger] rows[i]@) is Some
}

/// What loading a whole schema pool yields: every row parsed, in order, or
/// the single loader error when any row is ill-formed.
pub open spec fn spec_load_schema(rows: Seq<Vec<SchemaPrimitive>>) -> Result<
    Seq<SchemaModel>,
    Error,
> {
    if spec_rows_wellformed(rows) {
        Ok(Seq::new(rows.len(), |i: int| spec_parse_row(rows[i]@)->Some_0))
    } else {
        Err(Error::ParseInvalidTraitsBase)
    }
}

/// Compares a string against a literal, character for character.
fn string_matches(s: &String, lit: &str) -> (r: bool)
    ensures
        r == (s@ == lit@),
{
    let other = String::from_str(lit);
    *s == other
}

/// Copies a list of strings; the copy has the same character sequences.
fn clone_strings(v: &Vec<String>) -> (r: Vec<String>)
    ensures
        r.deep_view() == v.deep_view(),
{
    let mut out: Vec<String> = Vec::new();
    let n = v.len();
    let mut i: usize = 0;
    while i < n
        invariant
            i <= n,
            n == v@.len(),
            out@.len() == i,
            forall|j: int| 0 <= j < i ==> #[trigger] out@[j]@ == v@[j]@,
        decreases n - i,
    {
        out.push(v[i].clone());
        i = i + 1;
    }
    proof {
        assert(out.deep_view() =~= v.deep_view());
    }
    out
}

/// Reads the pattern field; `None` for an unrecognized string.
fn pattern_of(s: &String) -> (r: Option<Pattern>)
    ensures
        r == spec_pattern_of(s@),
{
    if string_matches(s, "raw") {
        Some(Pattern::Raw)
    } else if string_matches(s, "range") {
        Some(Pattern::Range)
    } else if string_matches(s, "options") {
        Some(Pattern::Options)
    } else if string_matches(s, "utf8") {
        Some(Pattern::Utf8)
    } else {
        None
    }
}

/// Reads the value-type field; `None` for an unrecognized string.
fn args_type_of(s: &String) -> (r: Option<ArgsType>)
    ensures
        r == spec_args_type_of(s@),
{
    if string_matches(s, "Number") {
        Some(ArgsType::Number)
    } else if string_matches(s, "String") {
        Some(ArgsType::Str)
    } else {
        None
    }
}

/// Parses one schema row into a typed record.
fn parse_row(row: &Vec<SchemaPrimitive>) -> (r: Option<TraitSchema>)
    ensures
        match r {
            Some(schema) => spec_parse_row(row@) == Some(schema@),
            None => spec_parse_row(row@) is None,
        },
{
    if row.len() != 5 && row.len() != 6 {
        return None;
    }
    let name = match &row[0] {
        SchemaPrimitive::Text(name) => name.clone(),
        _ => return None,
    };
    let offset = match &row[1] {
        SchemaPrimitive::Uint(offset) => *offset,
        _ => return None,
    };
    let len = match &row[2] {
        SchemaPrimitive::Uint(len) => *len,
        _ => return None,
    };
    let pattern = match &row[3] {
        SchemaPrimitive::Text(pat) => match pattern_of(pat) {
            Some(pattern) => pattern,
            None => return None,
        },
        _ => return None,
    };
    let value_type = match &row[4] {
        SchemaPrimitive::Text(vt) => match args_type_of(vt) {
            Some(value_type) => value_type,
            None => return None,
        },
        _ => return None,
    };
    let args = if row.len() == 6 {
        match &row[5] {
            SchemaPrimitive::TextList(args) => Some(clone_strings(args)),
            _ => return None,
        }
    } else {
        None
    };
    Some(TraitSchema { name, offset, len, pattern, value_type, args })
}

/// Loads a whole schema pool: each row in order becomes one `TraitSchema`;
/// any ill-formed row fails the whole load with `ParseInvalidTraitsBase`, and
/// no partial schema is returned.
pub fn decode_trait_schema(traits_pool: Vec<Vec<SchemaPrimitive>>) -> (r: Result<
    Vec<TraitSchema>,
    Error,
>)
    ensures
        match r {
            Ok(schemas) => spec_load_schema(traits_pool@) == Ok::<Seq<SchemaModel>, Error>(
                schemas@.map_values(|s: TraitSchema| s@),
            ),
            Err(e) => spec_load_schema(traits_pool@) == Err::<Seq<SchemaModel>, Error>(e),
        },
{
    let mut out: Vec<TraitSchema> = Vec::new();
    let n = traits_pool.len();
    let mut i: usize = 0;
    while i < n
        invariant
            i <= n,
            n == traits_pool@.len(),
            out@.len() == i,
            forall|j: int| 0 <= j < i ==> spec_parse_row(#[trigger] traits_pool@[j]@) is Some,
            forall|j: int|
                0 <= j < i ==> #[trigger] out@[j]@ == spec_parse_row(traits_pool@[j]@)->Some_0,
        decreases n - i,
    {
        match parse_row(&traits_pool[i]) {
            Some(schema) => {
                out.push(schema);
            },
            None => {
                proof {
                    assert(!spec_rows_wellformed(traits_pool@));
                }
                return Err(Error::ParseInvalidTraitsBase);
            },
        }
        i = i + 1;
    }
    proof {
        assert(spec_rows_wellformed(traits_pool@));
        assert(out@.map_values(|s: TraitSchema| s@) =~= Seq::new(
            traits_pool@.len(),
            |j: int| spec_parse_row(traits_pool@[j]@)->Some_0,
        ));
    }
    Ok(out)
}

} // verus!
