//! End-to-end tests of the DNA decoder: parameter assembly from hex text and
//! a structured-text schema, then pattern-driven decoding.

use dna_decoder::decode::dobs_decode;
use dna_decoder::numeric::parse_u64;
use dna_decoder::params::dobs_parse_parameters;
use dna_decoder::types::{ArgsType, Error, Parameters, ParsedDNA, ParsedTrait, Pattern, TraitSchema};

/// Assembles parameters from a DNA hex string and a schema given as JSON text.
fn params(dna_hex: &str, schema_json: &str) -> Result<Parameters, Error> {
    let schema_hex = hex::encode(schema_json.as_bytes());
    dobs_parse_parameters(vec![dna_hex.as_bytes(), schema_hex.as_bytes()])
}

fn decode(dna_hex: &str, schema_json: &str) -> Result<Vec<ParsedDNA>, Error> {
    dobs_decode(params(dna_hex, schema_json).expect("parameters should assemble"))
}

fn schema(
    name: &str,
    offset: u64,
    len: u64,
    pattern: Pattern,
    value_type: ArgsType,
    args: Option<&[&str]>,
) -> TraitSchema {
    TraitSchema {
        name: name.to_string(),
        offset,
        len,
        pattern,
        value_type,
        args: args.map(|a| a.iter().map(|s| s.to_string()).collect()),
    }
}

#[test]
fn raw_number_example() {
    // DNA 0x01000000, raw number over all four bytes: little-endian 1.
    let out = decode("01000000", r#"[["a",0,4,"raw","Number"]]"#).unwrap();
    assert_eq!(out.len(), 1);
    assert_eq!(out[0].name, "a");
    assert_eq!(out[0].traits, vec![ParsedTrait::Number(1)]);
}

#[test]
fn range_example() {
    // First byte 0x01 with range ["10","20"]: 10 + (1 mod 10) = 11.
    let out = decode("01000000", r#"[["a",0,1,"range","Number",["10","20"]]]"#).unwrap();
    assert_eq!(out[0].traits, vec![ParsedTrait::Number(11)]);
}

#[test]
fn options_string_example() {
    // Segment value 1 selects "green" out of three options.
    let out = decode("01", r#"[["c",0,1,"options","String",["red","green","blue"]]]"#).unwrap();
    assert_eq!(out[0].traits, vec![ParsedTrait::Text("green".to_string())]);
}

#[test]
fn utf8_example() {
    // Bytes "hi\0\0": trailing null padding is stripped before decoding.
    let out = decode("68690000", r#"[["t",0,4,"utf8","String"]]"#).unwrap();
    assert_eq!(out[0].traits, vec![ParsedTrait::Text("hi".to_string())]);
}

#[test]
fn arg_count_must_be_two() {
    let one: Vec<&[u8]> = vec![b"01"];
    assert_eq!(dobs_parse_parameters(one), Err(Error::ParseInvalidArgCount));
    let none: Vec<&[u8]> = vec![];
    assert_eq!(dobs_parse_parameters(none), Err(Error::ParseInvalidArgCount));
    let three: Vec<&[u8]> = vec![b"01", b"5b5d", b"01"];
    assert_eq!(dobs_parse_parameters(three), Err(Error::ParseInvalidArgCount));
}

#[test]
fn output_matches_schema_length_and_order() {
    let out = decode(
        "0102030405",
        r#"[["x",0,1,"raw","Number"],["y",1,2,"raw","Number"],["z",0,2,"raw","String"]]"#,
    )
    .unwrap();
    assert_eq!(out.len(), 3);
    assert_eq!(out[0].name, "x");
    assert_eq!(out[1].name, "y");
    assert_eq!(out[2].name, "z");
    assert_eq!(out[0].traits, vec![ParsedTrait::Number(1)]);
    assert_eq!(out[1].traits, vec![ParsedTrait::Number(0x0302)]);
    assert_eq!(out[2].traits, vec![ParsedTrait::Text("0x0102".to_string())]);
}

#[test]
fn range_stays_within_bounds() {
    // 0xff -> 10 + (255 mod 10) = 15; always inside [10, 20).
    let out = decode("ff", r#"[["a",0,1,"range","Number",["10","20"]]]"#).unwrap();
    match &out[0].traits[0] {
        ParsedTrait::Number(n) => {
            assert_eq!(*n, 15);
            assert!((10u64..20u64).contains(n));
        },
        other => panic!("expected a number, got {other:?}"),
    }
}

#[test]
fn options_select_by_modulo() {
    // Segment value 4 over three options: index 4 mod 3 = 1.
    let out = decode("04", r#"[["c",0,1,"options","String",["red","green","blue"]]]"#).unwrap();
    assert_eq!(out[0].traits, vec![ParsedTrait::Text("green".to_string())]);
    // Numeric options parse the selected argument: 3 mod 2 = 1 -> "8".
    let out = decode("03", r#"[["n",0,1,"options","Number",["7","8"]]]"#).unwrap();
    assert_eq!(out[0].traits, vec![ParsedTrait::Number(8)]);
}

#[test]
fn zero_padding_preserves_value() {
    let three = decode("010203", r#"[["a",0,3,"raw","Number"]]"#).unwrap();
    let four = decode("01020300", r#"[["a",0,4,"raw","Number"]]"#).unwrap();
    assert_eq!(three[0].traits, four[0].traits);
    assert_eq!(three[0].traits, vec![ParsedTrait::Number(0x030201)]);
}

#[test]
fn repeated_decode_is_identical() {
    let dna = "0a0b0c0d";
    let json = r#"[["a",0,2,"raw","Number"],["b",0,4,"utf8","String"],["c",2,1,"options","String",["x","y"]]]"#;
    let first = decode(dna, json);
    let second = decode(dna, json);
    assert_eq!(first, second);
}

#[test]
fn truncated_segment_decodes_available_bytes() {
    // Two-byte DNA, entry asks for five bytes from offset 1: only 0x02 is there.
    let out = decode("0102", r#"[["a",1,5,"raw","Number"]]"#).unwrap();
    assert_eq!(out[0].traits, vec![ParsedTrait::Number(2)]);
}

#[test]
fn fully_out_of_range_segment_is_empty_and_fails() {
    // Offset past the DNA yields an empty segment, which numeric decoding refuses.
    let r = decode("0102", r#"[["a",5,2,"raw","Number"]]"#);
    assert_eq!(r, Err(Error::DecodeUnexpectedDNASegment));
}

#[test]
fn dna_argument_validation() {
    let schema_hex = hex::encode(br#"[["a",0,1,"raw","Number"]]"#);
    let empty: Vec<&[u8]> = vec![b"", schema_hex.as_bytes()];
    assert_eq!(dobs_parse_parameters(empty), Err(Error::ParseInvalidSporeDNA));
    let odd: Vec<&[u8]> = vec![b"011", schema_hex.as_bytes()];
    assert_eq!(dobs_parse_parameters(odd), Err(Error::ParseInvalidSporeDNA));
    let not_hex: Vec<&[u8]> = vec![b"zz", schema_hex.as_bytes()];
    assert_eq!(dobs_parse_parameters(not_hex), Err(Error::ParseInvalidSporeDNA));
}

#[test]
fn traits_base_argument_validation() {
    // Not hexadecimal at all.
    let bad_hex: Vec<&[u8]> = vec![b"01", b"zz"];
    assert_eq!(dobs_parse_parameters(bad_hex), Err(Error::ParseInvalidTraitsBase));
    // Hexadecimal, but not structured text.
    let not_json = hex::encode(b"not json");
    let args: Vec<&[u8]> = vec![b"01", not_json.as_bytes()];
    assert_eq!(dobs_parse_parameters(args), Err(Error::ParseInvalidTraitsBase));
    // Structured text of the wrong shape: an object, not an array of arrays.
    assert_eq!(params("01", r#"{"a":1}"#).unwrap_err(), Error::ParseInvalidTraitsBase);
    // A row with too few fields.
    assert_eq!(params("01", r#"[["a",0]]"#).unwrap_err(), Error::ParseInvalidTraitsBase);
    // A row with a negative offset.
    assert_eq!(
        params("01", r#"[["a",-1,1,"raw","Number"]]"#).unwrap_err(),
        Error::ParseInvalidTraitsBase
    );
    // Unrecognized enumerated strings are case-sensitive.
    assert_eq!(
        params("01", r#"[["a",0,1,"Raw","Number"]]"#).unwrap_err(),
        Error::ParseInvalidTraitsBase
    );
    assert_eq!(
        params("01", r#"[["a",0,1,"raw","number"]]"#).unwrap_err(),
        Error::ParseInvalidTraitsBase
    );
    // Args that are not a list of strings.
    assert_eq!(
        params("01", r#"[["a",0,1,"options","String",[1,2]]]"#).unwrap_err(),
        Error::ParseInvalidTraitsBase
    );
}

#[test]
fn empty_schema_decodes_to_empty_output() {
    let out = decode("01", "[]").unwrap();
    assert!(out.is_empty());
}

#[test]
fn segment_width_limits() {
    // Exactly eight bytes of 0xff: u64::MAX.
    let out = decode("ffffffffffffffff", r#"[["a",0,8,"raw","Number"]]"#).unwrap();
    assert_eq!(out[0].traits, vec![ParsedTrait::Number(u64::MAX)]);
    // Five bytes exercise the widest zero-padding path.
    let out = decode("0100000000", r#"[["a",0,5,"raw","Number"]]"#).unwrap();
    assert_eq!(out[0].traits, vec![ParsedTrait::Number(1)]);
    // Nine bytes are more than one word: refused.
    let r = decode("010203040506070809", r#"[["a",0,9,"raw","Number"]]"#);
    assert_eq!(r, Err(Error::DecodeUnexpectedDNASegment));
}

#[test]
fn parse_u64_directly() {
    assert_eq!(parse_u64(vec![0x01]), Ok(1));
    assert_eq!(parse_u64(vec![0x02, 0x01]), Ok(0x0102));
    assert_eq!(parse_u64(vec![0x01, 0x02, 0x03]), Ok(0x030201));
    assert_eq!(
        parse_u64(vec![0x11, 0x22, 0x33, 0x44, 0x55, 0x66, 0x77, 0x88]),
        Ok(0x8877665544332211)
    );
    assert_eq!(parse_u64(vec![]), Err(Error::DecodeUnexpectedDNASegment));
    assert_eq!(parse_u64(vec![0; 9]), Err(Error::DecodeUnexpectedDNASegment));
}

#[test]
fn utf8_type_must_be_string() {
    let r = decode("6869", r#"[["t",0,2,"utf8","Number"]]"#);
    assert_eq!(r, Err(Error::DecodeArgsTypeMismatch));
}

#[test]
fn range_type_must_be_number() {
    let r = decode("01", r#"[["a",0,1,"range","String",["10","20"]]]"#);
    assert_eq!(r, Err(Error::DecodeArgsTypeMismatch));
}

#[test]
fn range_args_validation() {
    assert_eq!(
        decode("01", r#"[["a",0,1,"range","Number"]]"#),
        Err(Error::DecodeMissingRangeArgs)
    );
    assert_eq!(
        decode("01", r#"[["a",0,1,"range","Number",["10"]]]"#),
        Err(Error::DecodeInvalidRangeArgs)
    );
    assert_eq!(
        decode("01", r#"[["a",0,1,"range","Number",["x","20"]]]"#),
        Err(Error::DecodeInvalidRangeArgs)
    );
    // Equal bounds would leave an empty range: refused.
    assert_eq!(
        decode("01", r#"[["a",0,1,"range","Number",["10","10"]]]"#),
        Err(Error::DecodeInvalidRangeArgs)
    );
    assert_eq!(
        decode("01", r#"[["a",0,1,"range","Number",["20","10"]]]"#),
        Err(Error::DecodeInvalidRangeArgs)
    );
}

#[test]
fn options_args_validation() {
    assert_eq!(
        decode("01", r#"[["a",0,1,"options","Number"]]"#),
        Err(Error::DecodeMissingOptionArgs)
    );
    assert_eq!(
        decode("01", r#"[["a",0,1,"options","Number",[]]]"#),
        Err(Error::DecodeInvalidOptionArgs)
    );
    // A numeric options entry whose selected argument is not a number.
    assert_eq!(
        decode("00", r#"[["a",0,1,"options","Number",["red"]]]"#),
        Err(Error::DecodeInvalidOptionArgs)
    );
}

#[test]
fn invalid_utf8_fails() {
    let r = decode("ff", r#"[["t",0,1,"utf8","String"]]"#);
    assert_eq!(r, Err(Error::DecodeBadUTF8Format));
}

#[test]
fn raw_string_is_prefixed_hex() {
    let out = decode("0a0b", r#"[["a",0,2,"raw","String"]]"#).unwrap();
    assert_eq!(out[0].traits, vec![ParsedTrait::Text("0x0a0b".to_string())]);
    // An empty segment still hex-encodes (to just the prefix).
    let out = decode("0a0b", r#"[["a",2,0,"raw","String"]]"#).unwrap();
    assert_eq!(out[0].traits, vec![ParsedTrait::Text("0x".to_string())]);
}

#[test]
fn uppercase_hex_dna_is_accepted() {
    let out = decode("FF", r#"[["a",0,1,"raw","Number"]]"#).unwrap();
    assert_eq!(out[0].traits, vec![ParsedTrait::Number(255)]);
}

#[test]
fn decimal_args_accept_leading_plus() {
    let out = decode("00", r#"[["a",0,1,"options","Number",["+7"]]]"#).unwrap();
    assert_eq!(out[0].traits, vec![ParsedTrait::Number(7)]);
}

#[test]
fn decode_with_directly_built_schema() {
    // The decode engine over hand-built parameters, bypassing transport text.
    let p = Parameters {
        spore_dna: vec![0x05, 0x00],
        traits_base: vec![
            schema("lucky", 0, 2, Pattern::Range, ArgsType::Number, Some(&["1", "50"])),
            schema("tag", 0, 1, Pattern::Options, ArgsType::Str, Some(&["a", "b", "c", "d", "e", "f"])),
        ],
    };
    let out = dobs_decode(p).unwrap();
    assert_eq!(out[0].name, "lucky");
    assert_eq!(out[0].traits, vec![ParsedTrait::Number(1 + 5 % 49)]);
    assert_eq!(out[1].traits, vec![ParsedTrait::Text("f".to_string())]);
}

#[test]
fn utf8_interior_zeros_are_kept() {
    // Only trailing zeros are stripped: "a\0b" keeps its interior zero byte.
    let out = decode("61006200", r#"[["t",0,4,"utf8","String"]]"#).unwrap();
    assert_eq!(out[0].traits, vec![ParsedTrait::Text("a\0b".to_string())]);
}
