//! Data model of the decoder: schema entries, decoded trait values, and the
//! closed error taxonomy.

use vstd::prelude::*;

verus! {

/// How a trait's byte segment is interpreted.
#[derive(Clone, Copy, Debug, PartialEq, Eq, Structural)]
pub enum Pattern {
    Raw,
    Range,
    Options,
    Utf8,
}

/// Whether a schema entry decodes to a number or to text.
#[derive(Clone, Copy, Debug, PartialEq, Eq, Structural)]
pub enum ArgsType {
    Number,
    Str,
}

/// Closed error taxonomy. Every failure of the decoder is one of these tags;
/// a failing call returns no partial output.
#[derive(Clone, Copy, Debug, PartialEq, Eq, Structural)]
pub enum Error {
    ParseInvalidArgCount,
    ParseInvalidSporeDNA,
    ParseInvalidTraitsBase,
    DecodeUnexpectedDNASegment,
    DecodeArgsTypeMismatch,
    DecodeMissingRangeArgs,
    DecodeInvalidRangeArgs,
    DecodeMissingOptionArgs,
    DecodeInvalidOptionArgs,
    DecodeBadUTF8Format,
}

/// One schema entry: which bytes of the DNA to read and how to interpret them.
#[derive(Debug, Clone, PartialEq, Eq)]
pub struct TraitSchema {
    pub name: String,
    pub offset: u64,
    pub len: u64,
    pub pattern: Pattern,
    pub value_type: ArgsType,
    pub args: Option<Vec<String>>,
}

/// Mathematical model of a `TraitSchema`: strings become character sequences.
pub struct SchemaModel {
    pub name: Seq<char>,
    pub offset: u64,
    pub len: u64,
    pub pattern: Pattern,
    pub value_type: ArgsType,
    pub args: Option<Seq<Seq<char>>>,
}

impl View for TraitSchema {
    type V = SchemaModel;

    open spec fn view(&self) -> SchemaModel {
        SchemaModel {
            name: self.name@,
            offset: self.offset,
            len: self.len,
            pattern: self.pattern,
            value_type: self.value_type,
            args: match self.args {
                Some(a) => Some(a.deep_view()),
                None => None,
            },
        }
    }
}

/// Everything one decode call consumes: the DNA bytes and the loaded schema.
#[derive(Debug, Clone, PartialEq, Eq)]
pub struct Parameters {
    pub spore_dna: Vec<u8>,
    pub traits_base: Vec<TraitSchema>,
}

/// Mathematical model of `Parameters`.
pub struct ParametersModel {
    pub spore_dna: Seq<u8>,
    pub traits_base: Seq<SchemaModel>,
}

impl View for Parameters {
    type V = ParametersModel;

    open spec fn view(&self) -> ParametersModel {
        ParametersModel {
            spore_dna: self.spore_dna@,
            traits_base: self.traits_base@.map_values(|s: TraitSchema| s@),
        }
    }
}

/// One decoded trait value.
#[derive(Debug, Clone, PartialEq, Eq)]
pub enum ParsedTrait {
    Number(u64),
    Text(String),
}

/// Mathematical model of a `ParsedTrait`.
pub enum TraitModel {
    Number(u64),
    Text(Seq<char>),
}

impl View for ParsedTrait {
    type V = TraitModel;

    open spec fn view(&self) -> TraitModel {
        match self {
            ParsedTrait::Number(n) => TraitModel::Number(*n),
            ParsedTrait::Text(s) => TraitModel::Text(s@),
        }
    }
}

/// The decoded result for one schema entry: the entry's name and its value.
#[derive(Debug, Clone, PartialEq, Eq)]
pub struct ParsedDNA {
    pub name: String,
    pub traits: Vec<ParsedTrait>,
}

/// Mathematical model of a `ParsedDNA`.
pub struct DnaModel {
    pub name: Seq<char>,
    pub traits: Seq<TraitModel>,
}

impl View for ParsedDNA {
    type V = DnaModel;

    open spec fn view(&self) -> DnaModel {
        DnaModel { name: self.name@, traits: self.traits@.map_values(|t: ParsedTrait| t@) }
    }
}

} // verus!
