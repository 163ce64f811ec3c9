use ton_client::nacl_box::{
    EncryptionBoxInfo, NaclBoxParams, NaclEncryptionBox, ParamsOfNaclBox, ParamsOfNaclBoxOpen,
};

fn params() -> NaclBoxParams {
    NaclBoxParams {
        their_public: "c4e2d9fe6a6baf8d1812b799856ef2a306291be7a7024837ad33a8530db79c6b".to_owned(),
        secret: "d9b9dc5033fb416134e5d2107fdbacab5aadb297cb82dbdcd137d663bac59f7f".to_owned(),
        nonce: "cd7f99924bf422544046e83595dd5803f17536f5c9a11746".to_owned(),
    }
}

fn object(members: &[(&str, &str)]) -> serde_json::Value {
    let mut map = serde_json::Map::new();
    for (key, value) in members {
        map.insert((*key).to_owned(), serde_json::Value::String((*value).to_owned()));
    }
    serde_json::Value::Object(map)
}

#[test]
fn info_names_the_algorithm_and_the_options() {
    let encryption_box = NaclEncryptionBox::new(params(), Some("m/44'/396'/0'/0/0".to_owned()));
    let info = encryption_box.get_info();
    assert_eq!(
        info,
        EncryptionBoxInfo {
            hdpath: Some("m/44'/396'/0'/0/0".to_owned()),
            algorithm: Some("NaclBox".to_owned()),
            options: Some(object(&[
                ("their_public", "c4e2d9fe6a6baf8d1812b799856ef2a306291be7a7024837ad33a8530db79c6b"),
                (
                    "nonce",
                    "636437663939393234626634323235343430343665383335393564643538303366313735333666356339613131373436"
                ),
            ])),
            public: None,
        }
    );
}

#[test]
fn nonce_text_is_hex_encoded_byte_by_byte() {
    let cases = [("", ""), ("ab", "6162"), ("\u{0}\u{f}\u{10}\u{7f}", "000f107f"), ("Hello world!", "48656c6c6f20776f726c6421"), ("\u{e9}", "c3a9")];
    for (nonce, encoded) in cases {
        let encryption_box = NaclEncryptionBox::new(
            NaclBoxParams { their_public: "pk".to_owned(), secret: "sk".to_owned(), nonce: nonce.to_owned() },
            None,
        );
        let info = encryption_box.get_info();
        assert_eq!(info.options, Some(object(&[("their_public", "pk"), ("nonce", encoded)])));
        assert_eq!(info.hdpath, None);
        assert_eq!(info.public, None);
    }
}

#[test]
fn options_hold_two_members() {
    let info = NaclEncryptionBox::new(params(), None).get_info();
    let options = info.options.unwrap();
    let members = options.as_object().unwrap();
    assert_eq!(members.len(), 2);
    assert!(members.get("secret").is_none());
    assert_eq!(serde_json::to_string(&options).unwrap().len(), 2 + 15 + 64 + 2 + 1 + 8 + 96 + 2);
}

#[test]
fn requests_carry_the_keys_of_the_box() {
    let encryption_box = NaclEncryptionBox::new(params(), None);
    assert_eq!(
        encryption_box.encrypt_request(&"aGVsbG8=".to_owned()),
        ParamsOfNaclBox {
            decrypted: "aGVsbG8=".to_owned(),
            nonce: params().nonce,
            their_public: params().their_public,
            secret: params().secret,
        }
    );
    assert_eq!(
        encryption_box.decrypt_request(&"li4XED4kx/pjQ2qdP0eR2d/K30uN94voNADxwA==".to_owned()),
        ParamsOfNaclBoxOpen {
            encrypted: "li4XED4kx/pjQ2qdP0eR2d/K30uN94voNADxwA==".to_owned(),
            nonce: params().nonce,
            their_public: params().their_public,
            secret: params().secret,
        }
    );
}
