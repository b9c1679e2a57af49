//! Decoder for fixed binary "DNA" blobs: a data-supplied schema names byte
//! segments of the blob and says how each one is turned into a typed trait
//! value (raw bytes, bounded numeric range, option table, or UTF-8 text).

pub mod types;
pub mod numeric;
pub mod hex_codec;
pub mod text;
pub mod schema;
pub mod decode;
pub mod params;
pub mod laws;
