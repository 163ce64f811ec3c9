use crate::hex_text::{hex_encode, hex_text};
use crate::json::{
    json_map_insert, json_map_new, json_object, json_shape, json_string, no_members, JsonShape,
};
use vstd::prelude::*;
use vstd::utf8::encode_utf8;

verus! {

/// The keys and the nonce of a NaCl box.
#[derive(Clone, Debug, Default, PartialEq)]
pub struct NaclBoxParams {
    /// 256-bit key, hex encoded.
    pub their_public: String,
    /// 256-bit key, hex encoded.
    pub secret: String,
    /// 96-bit nonce, hex encoded.
    pub nonce: String,
}

/// What an encryption box tells about itself.
#[derive(Clone, Debug, Default, PartialEq)]
pub struct EncryptionBoxInfo {
    /// Derivation path, for instance "m/44'/396'/0'/0/0".
    pub hdpath: Option<String>,
    /// Cryptographic algorithm used by this encryption box.
    pub algorithm: Option<String>,
    /// Options, depending on the algorithm and the implementation.
    pub options: Option<serde_json::Value>,
    /// Public information, depending on the algorithm.
    pub public: Option<serde_json::Value>,
}

/// The request that encrypts `decrypted` with a NaCl box.
#[derive(Clone, Debug, Default, PartialEq)]
pub struct ParamsOfNaclBox {
    pub decrypted: String,
    pub nonce: String,
    pub their_public: String,
    pub secret: String,
}

/// The request that opens a NaCl box around `encrypted`.
#[derive(Clone, Debug, Default, PartialEq)]
pub struct ParamsOfNaclBoxOpen {
    pub encrypted: String,
    pub nonce: String,
    pub their_public: String,
    pub secret: String,
}

/// An encryption box that seals and opens data with fixed NaCl box keys.
#[derive(Debug)]
pub struct NaclEncryptionBox {
    params: NaclBoxParams,
    hdpath: Option<String>,
}

impl NaclEncryptionBox {
    /// The parameters the box was made with.
    pub closed spec fn params(self) -> NaclBoxParams {
        self.params
    }

    /// The derivation path the box was made with.
    pub closed spec fn hdpath(self) -> Option<String> {
        self.hdpath
    }

    /// The members of the options object that `get_info` reports.
    pub open spec fn options_members(self) -> Map<Seq<char>, JsonShape> {
        no_members().insert(
            "their_public"@,
            JsonShape::Text(self.params().their_public@),
        ).insert("nonce"@, JsonShape::Text(hex_text(encode_utf8(self.params().nonce@))))
    }

    pub fn new(params: NaclBoxParams, hdpath: Option<String>) -> (res: NaclEncryptionBox)
        ensures
            res.params() == params,
            res.hdpath() == hdpath,
    {
        NaclEncryptionBox { params, hdpath }
    }

    /// Describes the box: the algorithm "NaclBox", the derivation path, no
    /// public part, and as options the receiver's public key and the nonce,
    /// the nonce's text encoded once more as hexadecimal digits.
    pub fn get_info(&self) -> (info: EncryptionBoxInfo)
        ensures
            info.algorithm matches Some(name) && name@ == "NaclBox"@,
            info.hdpath == self.hdpath(),
            info.public is None,
            info.options matches Some(options) && json_shape(options) == JsonShape::Object(
                self.options_members(),
            ),
    {
        let mut members = json_map_new();
        json_map_insert(
            &mut members,
            "their_public".to_owned(),
            json_string(self.params.their_public.clone()),
        );
        let nonce = hex_encode(self.params.nonce.as_str().as_bytes());
        json_map_insert(&mut members, "nonce".to_owned(), json_string(nonce));
        EncryptionBoxInfo {
            algorithm: Some("NaclBox".to_owned()),
            hdpath: self.hdpath.clone(),
            public: None,
            options: Some(json_object(members)),
        }
    }

    /// The request that encrypts `data` with the keys and nonce of the box.
    pub fn encrypt_request(&self, data: &String) -> (request: ParamsOfNaclBox)
        ensures
            request.decrypted == *data,
            request.nonce == self.params().nonce,
            request.their_public == self.params().their_public,
            request.secret == self.params().secret,
    {
        ParamsOfNaclBox {
            decrypted: data.clone(),
            nonce: self.params.nonce.clone(),
            their_public: self.params.their_public.clone(),
            secret: self.params.secret.clone(),
        }
    }

    /// The request that decrypts `data` with the keys and nonce of the box.
    pub fn decrypt_request(&self, data: &String) -> (request: ParamsOfNaclBoxOpen)
        ensures
            request.encrypted == *data,
            request.nonce == self.params().nonce,
            request.their_public == self.params().their_public,
            request.secret == self.params().secret,
    {
        ParamsOfNaclBoxOpen {
            encrypted: data.clone(),
            nonce: self.params.nonce.clone(),
            their_public: self.params.their_public.clone(),
            secret: self.params.secret.clone(),
        }
    }
}

} // verus!
