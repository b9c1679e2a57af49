//! The decode engine: for each schema entry, extract the entry's byte segment
//! from the DNA and derive one typed trait value from it, in schema order.

use vstd::prelude::*;
use vstd::string::StringExecFns;

use crate::hex_codec::{hex_encode, spec_hex_encode};
use crate::numeric::{parse_u64, spec_parse_u64};
use crate::text::{parse_decimal, spec_parse_decimal, utf8_to_string};
use crate::types::{
    ArgsType, DnaModel, Error, Parameters, ParsedDNA, ParsedTrait, Pattern, SchemaModel,
    TraitModel, TraitSchema,
};

verus! {

/// The byte sub-range of the DNA selected by an entry's offset and length,
/// under the lenient bounds policy: both the start and the end are clamped to
/// the DNA's extent, so a request past the end yields a shorter segment and
/// never an error.
pub open spec fn spec_segment(dna: Seq<u8>, offset: u64, len: u64) -> Seq<u8> {
    let start = if offset as int <= dna.len() {
        offset as int
    } else {
        dna.len() as int
    };
    let end = if start + len as int <= dna.len() {
        start + len as int
    } else {
        dna.len() as int
    };
    dna.subrange(start, end)
}

/// The segment with its trailing zero (null padding) bytes removed.
pub open spec fn spec_strip_trailing_zeros(s: Seq<u8>) -> Seq<u8>
    decreases s.len(),
{
    if s.len() > 0 && s.last() == 0 {
        spec_strip_trailing_zeros(s.drop_last())
    } else {
        s
    }
}

/// What evaluating one schema entry against the DNA yields: one typed trait
/// value, or the entry's failure tag.
pub open spec fn spec_eval_entry(dna: Seq<u8>, s: SchemaModel) -> Result<TraitModel, Error> {
    let seg = spec_segment(dna, s.offset, s.len);
    match s.pattern {
        Pattern::Raw => match s.value_type {
            ArgsType::Number => match spec_parse_u64(seg) {
                Ok(v) => Ok(TraitModel::Number(v)),
                Err(e) => Err(e),
            },
            ArgsType::Str => Ok(TraitModel::Text("0x"@ + spec_hex_encode(seg))),
        },
        Pattern::Utf8 => {
            if s.value_type != ArgsType::Str {
                Err(Error::DecodeArgsTypeMismatch)
            } else {
                let stripped = spec_strip_trailing_zeros(seg);
                if vstd::utf8::valid_utf8(stripped) {
                    Ok(TraitModel::Text(vstd::utf8::decode_utf8(stripped)))
                } else {
                    Err(Error::DecodeBadUTF8Format)
                }
            }
        },
        Pattern::Range => match s.args {
            None => Err(Error::DecodeMissingRangeArgs),
            Some(args) => {
                if args.len() != 2 {
                    Err(Error::DecodeInvalidRangeArgs)
                } else if s.value_type != ArgsType::Number {
                    Err(Error::DecodeArgsTypeMismatch)
                } else {
                    match (spec_parse_decimal(args[0]), spec_parse_decimal(args[1])) {
                        (Some(lower), Some(upper)) => {
                            if upper <= lower {
                                Err(Error::DecodeInvalidRangeArgs)
                            } else {
                                match spec_parse_u64(seg) {
                                    Ok(v) => Ok(
                                        TraitModel::Number(
                                            (lower + (v as int % (upper - lower))) as u64,
                                        ),
                                    ),
                                    Err(e) => Err(e),
                                }
                            }
                        },
                        _ => Err(Error::DecodeInvalidRangeArgs),
                    }
                }
            },
        },
        Pattern::Options => match s.args {
            None => Err(Error::DecodeMissingOptionArgs),
            Some(args) => {
                if args.len() == 0 {
                    Err(Error::DecodeInvalidOptionArgs)
                } else {
                    match spec_parse_u64(seg) {
                        Err(e) => Err(e),
                        Ok(v) => {
                            let chosen = args[v as int % args.len() as int];
                            match s.value_type {
                                ArgsType::Str => Ok(TraitModel::Text(chosen)),
                                ArgsType::Number => match spec_parse_decimal(chosen) {
                                    Some(n) => Ok(TraitModel::Number(n)),
                                    None => Err(Error::DecodeInvalidOptionArgs),
                                },
                            }
                        },
                    }
                }
            },
        },
    }
}

/// What decoding the entries from index `i` on yields: each remaining entry's
/// name paired with its one trait value, in order; the first failing entry's
/// error stops the whole decode.
pub open spec fn spec_decode_from(dna: Seq<u8>, schemas: Seq<SchemaModel>, i: int) -> Result<
    Seq<DnaModel>,
    Error,
>
    decreases schemas.len() - i,
{
    if i < 0 || i >= schemas.len() {
        Ok(Seq::empty())
    } else {
        match spec_eval_entry(dna, schemas[i]) {
            Err(e) => Err(e),
            Ok(t) => match spec_decode_from(dna, schemas, i + 1) {
                Err(e) => Err(e),
                Ok(rest) => Ok(
                    seq![DnaModel { name: schemas[i].name, traits: seq![t] }] + rest,
                ),
            },
        }
    }
}

/// What decoding a whole schema against the DNA yields.
pub open spec fn spec_decode(dna: Seq<u8>, schemas: Seq<SchemaModel>) -> Result<
    Seq<DnaModel>,
    Error,
> {
    spec_decode_from(dna, schemas, 0)
}

/// Copies the byte segment an entry selects out of the DNA, clamping both
/// bounds to the DNA's extent.
fn extract_segment(dna: &Vec<u8>, offset: u64, len: u64) -> (r: Vec<u8>)
    ensures
        r@ == spec_segment(dna@, offset, len),
{
    let dna_len = dna.len();
    let start: usize = if offset >= dna_len as u64 {
        dna_len
    } else {
        offset as usize
    };
    let remaining = dna_len - start;
    let take: usize = if len >= remaining as u64 {
        remaining
    } else {
        len as usize
    };
    let end = start + take;
    let mut seg: Vec<u8> = Vec::new();
    let mut i: usize = start;
    while i < end
        invariant
            start <= i <= end <= dna@.len(),
            seg@ =~= dna@.subrange(start as int, i as int),
        decreases end - i,
    {
        seg.push(dna[i]);
        i = i + 1;
    }
    proof {
        assert(seg@ =~= spec_segment(dna@, offset, len));
    }
    seg
}

/// Removes the trailing zero bytes (null padding) of a segment.
fn strip_trailing_zeros(segment: Vec<u8>) -> (r: Vec<u8>)
    ensures
        r@ == spec_strip_trailing_zeros(segment@),
{
    let mut seg = segment;
    while seg.len() > 0 && seg[seg.len() - 1] == 0
        invariant
            spec_strip_trailing_zeros(seg@) == spec_strip_trailing_zeros(segment@),
        decreases seg@.len(),
    {
        proof {
            assert(seg@.drop_last() =~= seg@.subrange(0, seg@.len() - 1));
        }
        seg.pop();
    }
    seg
}

/// Evaluates one schema entry: extracts its segment and derives the trait
/// value its pattern and value type call for.
fn eval_entry(dna: &Vec<u8>, schema: &TraitSchema) -> (r: Result<ParsedTrait, Error>)
    ensures
        match r {
            Ok(t) => spec_eval_entry(dna@, schema@) == Ok::<TraitModel, Error>(t@),
            Err(e) => spec_eval_entry(dna@, schema@) == Err::<TraitModel, Error>(e),
        },
{
    let segment = extract_segment(dna, schema.offset, schema.len);
    match schema.pattern {
        Pattern::Raw => match schema.value_type {
            ArgsType::Number => match parse_u64(segment) {
                Ok(v) => Ok(ParsedTrait::Number(v)),
                Err(e) => Err(e),
            },
            ArgsType::Str => {
                let digits = hex_encode(segment.as_slice());
                let mut text = String::from_str("0x");
                text.append(digits.as_str());
                Ok(ParsedTrait::Text(text))
            },
        },
        Pattern::Utf8 => {
            if schema.value_type != ArgsType::Str {
                return Err(Error::DecodeArgsTypeMismatch);
            }
            let stripped = strip_trailing_zeros(segment);
            match utf8_to_string(stripped) {
                Some(text) => Ok(ParsedTrait::Text(text)),
                None => Err(Error::DecodeBadUTF8Format),
            }
        },
        Pattern::Range => {
            let args = match &schema.args {
                Some(args) => args,
                None => {
                    return Err(Error::DecodeMissingRangeArgs);
                },
            };
            if args.len() != 2 {
                return Err(Error::DecodeInvalidRangeArgs);
            }
            if schema.value_type != ArgsType::Number {
                return Err(Error::DecodeArgsTypeMismatch);
            }
            let lower = match parse_decimal(args[0].as_str()) {
                Some(v) => v,
                None => {
                    return Err(Error::DecodeInvalidRangeArgs);
                },
            };
            let upper = match parse_decimal(args[1].as_str()) {
                Some(v) => v,
                None => {
                    return Err(Error::DecodeInvalidRangeArgs);
                },
            };
            if upper <= lower {
                return Err(Error::DecodeInvalidRangeArgs);
            }
            match parse_u64(segment) {
                Ok(v) => Ok(ParsedTrait::Number(lower + v % (upper - lower))),
                Err(e) => Err(e),
            }
        },
        Pattern::Options => {
            let args = match &schema.args {
                Some(args) => args,
                None => {
                    return Err(Error::DecodeMissingOptionArgs);
                },
            };
            if args.len() == 0 {
                return Err(Error::DecodeInvalidOptionArgs);
            }
            let v = match parse_u64(segment) {
                Ok(v) => v,
                Err(e) => {
                    return Err(e);
                },
            };
            let idx = (v % (args.len() as u64)) as usize;
            match schema.value_type {
                ArgsType::Str => Ok(ParsedTrait::Text(args[idx].clone())),
                ArgsType::Number => match parse_decimal(args[idx].as_str()) {
                    Some(n) => Ok(ParsedTrait::Number(n)),
                    None => Err(Error::DecodeInvalidOptionArgs),
                },
            }
        },
    }
}

/// Decodes the DNA against the whole schema: one named trait value per entry,
/// in schema order; the first failing entry's error fails the call with no
/// partial output.
pub fn dobs_decode(parameters: Parameters) -> (r: Result<Vec<ParsedDNA>, Error>)
    ensures
        match r {
            Ok(out) => spec_decode(parameters.spore_dna@, parameters@.traits_base) == Ok::<
                Seq<DnaModel>,
                Error,
            >(out@.map_values(|d: ParsedDNA| d@)),
            Err(e) => spec_decode(parameters.spore_dna@, parameters@.traits_base) == Err::<
                Seq<DnaModel>,
                Error,
            >(e),
        },
{
    let spore_dna = &parameters.spore_dna;
    let traits_base = &parameters.traits_base;
    let ghost models = traits_base@.map_values(|s: TraitSchema| s@);
    let mut result: Vec<ParsedDNA> = Vec::new();
    let n = traits_base.len();
    let mut i: usize = 0;
    while i < n
        invariant
            i <= n,
            n == traits_base@.len(),
            spore_dna@ == parameters.spore_dna@,
            models == traits_base@.map_values(|s: TraitSchema| s@),
            models == parameters@.traits_base,
            result@.len() == i,
            spec_decode(spore_dna@, models) == (match spec_decode_from(spore_dna@, models, i as int) {
                Ok(rest) => Ok::<Seq<DnaModel>, Error>(
                    result@.map_values(|d: ParsedDNA| d@) + rest,
                ),
                Err(e) => Err::<Seq<DnaModel>, Error>(e),
            }),
        decreases n - i,
    {
        proof {
            assert(spec_decode_from(spore_dna@, models, i as int) == (
            match spec_eval_entry(spore_dna@, models[i as int]) {
                Err(e) => Err::<Seq<DnaModel>, Error>(e),
                Ok(t) => match spec_decode_from(spore_dna@, models, i as int + 1) {
                    Err(e) => Err::<Seq<DnaModel>, Error>(e),
                    Ok(rest) => Ok::<Seq<DnaModel>, Error>(
                        seq![DnaModel { name: models[i as int].name, traits: seq![t] }] + rest,
                    ),
                },
            }));
        }
        let schema = &traits_base[i];
        proof {
            assert(schema@ == models[i as int]);
        }
        match eval_entry(&spore_dna, schema) {
            Ok(value) => {
                let mut traits: Vec<ParsedTrait> = Vec::new();
                traits.push(value);
                let entry = ParsedDNA { name: schema.name.clone(), traits };
                proof {
                    assert(entry.traits@.map_values(|t: ParsedTrait| t@) =~= seq![value@]);
                    assert(entry@ == DnaModel { name: models[i as int].name, traits: seq![value@] });
                }
                let ghost prev = result@;
                result.push(entry);
                proof {
                    assert(result@.map_values(|d: ParsedDNA| d@) =~= prev.map_values(
                        |d: ParsedDNA| d@,
                    ) + seq![entry@]);
                    if spec_decode_from(spore_dna@, models, i as int + 1) is Ok {
                        let rest = spec_decode_from(spore_dna@, models, i as int + 1)->Ok_0;
                        assert(prev.map_values(|d: ParsedDNA| d@) + (seq![entry@] + rest)
                            =~= (prev.map_values(|d: ParsedDNA| d@) + seq![entry@]) + rest);
                    }
                }
            },
            Err(e) => {
                return Err(e);
            },
        }
        i = i + 1;
    }
    proof {
        assert(result@.map_values(|d: ParsedDNA| d@) + Seq::<DnaModel>::empty() =~= result@
            .map_values(|d: ParsedDNA| d@));
    }
    Ok(result)
}

} // verus!
