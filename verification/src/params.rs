//! Parameter assembly: the external call shape is exactly two byte-string
//! arguments; the first is hexadecimal text for the DNA, the second is
//! hexadecimal text for the schema's transport bytes, which must parse as a
//! schema-row array.

use vstd::prelude::*;

use crate::hex_codec::{hex_decode, spec_hex_decode};
use crate::schema::{decode_trait_schema, parse_schema_rows, spec_load_schema, spec_schema_rows};
use crate::types::{Error, Parameters, ParametersModel};

verus! {

/// What assembling the call arguments yields: the DNA bytes and the loaded
/// schema, or the first failure along the way. The DNA argument must be
/// non-empty, of even length and hexadecimal; the schema argument must be
/// hexadecimal and decode to bytes that parse and load as schema rows.
pub open spec fn spec_parse_parameters(args: Seq<Seq<u8>>) -> Result<ParametersModel, Error> {
    if args.len() != 2 {
        Err(Error::ParseInvalidArgCount)
    } else if args[0].len() == 0 || args[0].len() % 2 != 0 {
        Err(Error::ParseInvalidSporeDNA)
    } else {
        match spec_hex_decode(args[0]) {
            None => Err(Error::ParseInvalidSporeDNA),
            Some(dna) => match spec_hex_decode(args[1]) {
                None => Err(Error::ParseInvalidTraitsBase),
                Some(transport) => match spec_schema_rows(transport) {
                    None => Err(Error::ParseInvalidTraitsBase),
                    Some(rows) => match spec_load_schema(rows@) {
                        Err(e) => Err(e),
                        Ok(schemas) => Ok(
                            ParametersModel { spore_dna: dna, traits_base: schemas },
                        ),
                    },
                },
            },
        }
    }
}

/// Assembles the two call arguments into decode parameters: checks the
/// argument count, hex-decodes the DNA and the schema transport bytes, and
/// loads the schema rows. Fails with the tag of the first check that does not
/// hold, and returns no partial result.
pub fn dobs_parse_parameters(args: Vec<&[u8]>) -> (r: Result<Parameters, Error>)
    ensures
        match r {
            Ok(p) => spec_parse_parameters(args.deep_view()) == Ok::<ParametersModel, Error>(p@),
            Err(e) => spec_parse_parameters(args.deep_view()) == Err::<ParametersModel, Error>(e),
        },
{
    proof {
        assert(args.deep_view().len() == args@.len());
    }
    if args.len() != 2 {
        return Err(Error::ParseInvalidArgCount);
    }
    let dna_arg = args[0];
    proof {
        assert(args.deep_view()[0] == dna_arg@);
        assert(args.deep_view()[1] == args@[1]@);
    }
    if dna_arg.len() == 0 || dna_arg.len() % 2 != 0 {
        return Err(Error::ParseInvalidSporeDNA);
    }
    let spore_dna = match hex_decode(dna_arg) {
        Some(dna) => dna,
        None => {
            return Err(Error::ParseInvalidSporeDNA);
        },
    };
    let transport = match hex_decode(args[1]) {
        Some(bytes) => bytes,
        None => {
            return Err(Error::ParseInvalidTraitsBase);
        },
    };
    let rows = match parse_schema_rows(transport.as_slice()) {
        Some(rows) => rows,
        None => {
            return Err(Error::ParseInvalidTraitsBase);
        },
    };
    let traits_base = match decode_trait_schema(rows) {
        Ok(schemas) => schemas,
        Err(e) => {
            return Err(e);
        },
    };
    Ok(Parameters { spore_dna, traits_base })
}

} // verus!
