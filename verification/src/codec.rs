use crate::descriptor::Schema;
use crate::error::CodecError;
use crate::hex_text::{hex_encode, hex_text};
use vstd::prelude::*;

verus! {

/// The protocol fields that precede the parameters of a function input.
#[derive(Clone, Debug, Default, PartialEq, Eq)]
pub struct FunctionHeader {
    /// Until when the message is valid, in seconds since the epoch.
    pub expire: Option<u32>,
    /// When the message was made, in milliseconds since the epoch.
    pub time: Option<u64>,
    /// The public key that signed the message, hex encoded.
    pub pubkey: Option<String>,
}

impl FunctionHeader {
    /// The header made of the fields that a message carries: no header
    /// where it carries none of them, else a header with the expiry and the
    /// time as they are and the public key as hexadecimal text.
    pub fn from_fields(expire: Option<u32>, time: Option<u64>, pubkey: Option<Vec<u8>>) -> (res:
        Option<FunctionHeader>)
        ensures
            res is None <==> expire is None && time is None && pubkey is None,
            res matches Some(header) ==> header.expire == expire && header.time == time,
            res matches Some(header) ==> (header.pubkey is Some <==> pubkey is Some),
            res matches Some(header) ==> (header.pubkey matches Some(text) ==> text@ == hex_text(
                pubkey->0@,
            )),
    {
        if expire.is_none() && time.is_none() && pubkey.is_none() {
            return None;
        }
        let pubkey = match pubkey {
            Some(key) => Some(hex_encode(key.as_slice())),
            None => None,
        };
        Some(FunctionHeader { expire, time, pubkey })
    }
}

/// What the codec is asked when parameters are to be decoded: the schema,
/// where in the body the parameters start, and whether data may be left over
/// behind the last of them.
#[derive(Clone, Copy, Debug, PartialEq, Eq, Structural)]
pub struct ParamsRequest {
    pub schema: Schema,
    /// How many bits of the body precede the parameters.
    pub offset_bits: usize,
    pub allow_partial: bool,
}

/// What the codec is asked when the header is to be decoded. The header is
/// always read from the start of the body.
#[derive(Clone, Copy, Debug, PartialEq, Eq, Structural)]
pub struct HeaderRequest {
    pub is_internal: bool,
}

/// What the codec found when it decoded a header: the fields, if the ABI
/// has any, and how many bits of the body they take.
#[derive(Clone, Debug, PartialEq, Eq)]
pub struct HeaderDecode {
    pub header: Option<FunctionHeader>,
    pub consumed_bits: usize,
}

/// A token codec seen as a mathematical function: for one body and one ABI,
/// what it answers to each request. `T` is the codec's own type of decoded
/// tokens.
#[verifier::reject_recursive_types(T)]
pub struct Codec<T> {
    pub params: spec_fn(ParamsRequest) -> Result<T, CodecError>,
    pub header: spec_fn(HeaderRequest) -> Result<HeaderDecode, CodecError>,
    pub value: spec_fn(T) -> Result<serde_json::Value, CodecError>,
}

} // verus!
