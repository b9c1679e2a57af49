//! Laws of the decode engine, stated and proved over the specification
//! functions that the executable functions' contracts use.

use vstd::prelude::*;

use crate::decode::{spec_decode, spec_decode_from, spec_eval_entry, spec_segment};
use crate::text::spec_parse_decimal;
use crate::numeric::spec_parse_u64;
use crate::types::{ArgsType, DnaModel, Error, Pattern, SchemaModel, TraitModel};

verus! {

/// Structure of a successful decode, from entry `i` on: one output record per
/// remaining entry, in order, each carrying the entry's name and exactly the
/// entry's one trait value.
proof fn lemma_decode_from_structure(
    dna: Seq<u8>,
    schemas: Seq<SchemaModel>,
    i: int,
    out: Seq<DnaModel>,
)
    requires
        0 <= i <= schemas.len(),
        spec_decode_from(dna, schemas, i) == Ok::<Seq<DnaModel>, Error>(out),
    ensures
        out.len() == schemas.len() - i,
        forall|j: int|
            i <= j < schemas.len() ==> spec_eval_entry(dna, schemas[j]) is Ok && out[j - i]
                == (DnaModel {
                name: schemas[j].name,
                traits: seq![spec_eval_entry(dna, schemas[j])->Ok_0],
            }),
    decreases schemas.len() - i,
{
    if i < schemas.len() {
        let rest = spec_decode_from(dna, schemas, i + 1)->Ok_0;
        lemma_decode_from_structure(dna, schemas, i + 1, rest);
        let head = DnaModel {
            name: schemas[i].name,
            traits: seq![spec_eval_entry(dna, schemas[i])->Ok_0],
        };
        assert(out == seq![head] + rest);
        assert forall|j: int| i <= j < schemas.len() implies spec_eval_entry(dna, schemas[j]) is Ok
            && out[j - i] == (DnaModel {
            name: schemas[j].name,
            traits: seq![spec_eval_entry(dna, schemas[j])->Ok_0],
        }) by {
            if j > i {
                assert(out[j - i] == rest[j - i - 1]);
            }
        }
    }
}

/// A successful decode yields exactly one output record per schema entry, in
/// schema order: the record at each index carries that entry's name and that
/// entry's single trait value; no entry is skipped or merged.
pub proof fn lemma_decode_output_matches_schema(
    dna: Seq<u8>,
    schemas: Seq<SchemaModel>,
    out: Seq<DnaModel>,
)
    requires
        spec_decode(dna, schemas) == Ok::<Seq<DnaModel>, Error>(out),
    ensures
        out.len() == schemas.len(),
        forall|j: int|
            0 <= j < schemas.len() ==> spec_eval_entry(dna, schemas[j]) is Ok && out[j]
                == (DnaModel {
                name: schemas[j].name,
                traits: seq![spec_eval_entry(dna, schemas[j])->Ok_0],
            }),
{
    lemma_decode_from_structure(dna, schemas, 0, out);
}

/// A range entry that evaluates successfully emits a number inside the
/// requested half-open range: `lowerbound <= n < upperbound`.
pub proof fn lemma_range_within_bounds(dna: Seq<u8>, s: SchemaModel, lower: u64, upper: u64, n: u64)
    requires
        s.pattern == Pattern::Range,
        s.args matches Some(args) && args.len() == 2 && spec_parse_decimal(args[0]) == Some(lower)
            && spec_parse_decimal(args[1]) == Some(upper),
        spec_eval_entry(dna, s) == Ok::<TraitModel, Error>(TraitModel::Number(n)),
    ensures
        lower <= n < upper,
{
    let seg = spec_segment(dna, s.offset, s.len);
    let v = spec_parse_u64(seg)->Ok_0;
    assert(0 <= v as int % (upper - lower) < upper - lower);
    assert(n == (lower + (v as int % (upper - lower))) as u64);
}

/// An options entry that evaluates successfully emits the argument selected
/// by the segment value modulo the argument count: that text verbatim, or,
/// for a numeric entry, its parsed value — and a numeric entry whose selected
/// argument does not parse fails.
pub proof fn lemma_options_selection(dna: Seq<u8>, s: SchemaModel, v: u64)
    requires
        s.pattern == Pattern::Options,
        s.args is Some,
        s.args->Some_0.len() > 0,
        spec_parse_u64(spec_segment(dna, s.offset, s.len)) == Ok::<u64, Error>(v),
    ensures
        ({
            let args = s.args->Some_0;
            let chosen = args[v as int % args.len() as int];
            match s.value_type {
                ArgsType::Str => spec_eval_entry(dna, s) == Ok::<TraitModel, Error>(
                    TraitModel::Text(chosen),
                ),
                ArgsType::Number => match spec_parse_decimal(chosen) {
                    Some(m) => spec_eval_entry(dna, s) == Ok::<TraitModel, Error>(
                        TraitModel::Number(m),
                    ),
                    None => spec_eval_entry(dna, s) == Err::<TraitModel, Error>(
                        Error::DecodeInvalidOptionArgs,
                    ),
                },
            }
        }),
{
}

/// Decoding is deterministic: the result is a function of the DNA bytes and
/// the schema alone, so repeating a decode of the same inputs yields an
/// identical result.
pub proof fn lemma_decode_deterministic(
    dna: Seq<u8>,
    schemas: Seq<SchemaModel>,
    r1: Result<Seq<DnaModel>, Error>,
    r2: Result<Seq<DnaModel>, Error>,
)
    requires
        r1 == spec_decode(dna, schemas),
        r2 == spec_decode(dna, schemas),
    ensures
        r1 == r2,
{
}

/// The lenient bounds policy: an entry reaching past the DNA's extent yields
/// a truncated segment — the available bytes from the clamped offset — and
/// never an extraction error.
pub proof fn lemma_segment_truncated(dna: Seq<u8>, offset: u64, len: u64)
    requires
        offset + len > dna.len(),
    ensures
        offset as int <= dna.len() ==> spec_segment(dna, offset, len) == dna.subrange(
            offset as int,
            dna.len() as int,
        ),
        offset as int > dna.len() ==> spec_segment(dna, offset, len) == Seq::<u8>::empty(),
        offset as int <= dna.len() ==> spec_segment(dna, offset, len).len() < len,
{
    if offset as int <= dna.len() {
        assert(spec_segment(dna, offset, len) =~= dna.subrange(offset as int, dna.len() as int));
    } else {
        assert(spec_segment(dna, offset, len) =~= Seq::<u8>::empty());
    }
}

} // verus!
