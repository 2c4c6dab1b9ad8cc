use base64ct::{Base64, Encoding};

use sentc_crypto::alg::asym::{generate_static_keypair, PublicKey, SecretKey};
use sentc_crypto::alg::sign::{generate_key_pair, SignKey, VerifyKey};
use sentc_crypto::alg::sym::{generate_key, SymmetricKey};
use sentc_crypto::error::Error;
use sentc_crypto::util::{
    export_key_to_pem, export_private_key, export_private_key_to_string, export_public_key,
    export_public_key_to_string, export_public_key_to_user_data, export_raw_public_key_to_pem,
    export_raw_verify_key_to_pem, export_sign_key, export_sign_key_to_string, export_sym_key,
    export_sym_key_to_string, export_verify_key, export_verify_key_to_string,
    export_verify_key_to_user_data, import_key_from_pem, import_private_key,
    import_private_key_from_format, import_public_key, import_public_key_from_format,
    import_public_key_from_pem_with_alg, import_public_key_from_user_data, import_sign_key,
    import_sign_key_from_format, import_sym_key, import_sym_key_from_format, import_verify_key,
    import_verify_key_from_format, import_verify_key_from_pem_with_alg,
    import_verify_key_from_user_data, KeyData, PrivateKeyFormat, PrivateKeyFormatInt,
    PublicKeyFormat, PublicKeyFormatInt, SignKeyFormat, SignKeyFormatInt, SymKeyFormat,
    SymKeyFormatInt, VerifyKeyFormat, VerifyKeyFormatInt,
};

const ID: &str = "key \"1\" é";

#[test]
fn sym_key_round_trips_through_its_format() {
    let key = SymKeyFormatInt { key: generate_key().unwrap(), key_id: ID.to_string() };

    let format = export_sym_key(key.clone());
    assert_eq!(
        format,
        SymKeyFormat::Aes { key: Base64::encode_string(key.key.as_bytes()), key_id: ID.to_string() }
    );
    assert_eq!(import_sym_key_from_format(&format), Ok(key.clone()));

    let text = export_sym_key_to_string(key.clone()).unwrap();
    assert_eq!(import_sym_key(&text), Ok(key));
}

#[test]
fn private_key_round_trips_through_its_format() {
    let (secret, _) = generate_static_keypair().unwrap();
    let key = PrivateKeyFormatInt { key: secret, key_id: ID.to_string() };

    let format = export_private_key(key.clone());
    assert_eq!(import_private_key_from_format(&format), Ok(key.clone()));

    let text = export_private_key_to_string(key.clone()).unwrap();
    assert_eq!(import_private_key(&text), Ok(key));
}

#[test]
fn public_key_round_trips_through_its_format() {
    let (_, public) = generate_static_keypair().unwrap();
    let key = PublicKeyFormatInt { key: public, key_id: ID.to_string() };

    let format = export_public_key(key.clone());
    assert_eq!(import_public_key_from_format(&format), Ok(key.clone()));

    let text = export_public_key_to_string(key.clone()).unwrap();
    assert_eq!(import_public_key(&text), Ok(key));
}

#[test]
fn sign_key_round_trips_through_its_format() {
    let (sign, _) = generate_key_pair().unwrap();
    let key = SignKeyFormatInt { key: sign, key_id: ID.to_string() };

    let format = export_sign_key(key.clone());
    assert_eq!(import_sign_key_from_format(&format), Ok(key.clone()));

    let text = export_sign_key_to_string(key.clone()).unwrap();
    assert_eq!(import_sign_key(&text), Ok(key));
}

#[test]
fn verify_key_round_trips_through_its_format() {
    let (_, verify) = generate_key_pair().unwrap();
    let key = VerifyKeyFormatInt { key: verify, key_id: ID.to_string() };

    let format = export_verify_key(key.clone());
    assert_eq!(import_verify_key_from_format(&format), Ok(key.clone()));

    let text = export_verify_key_to_string(key.clone()).unwrap();
    assert_eq!(import_verify_key(&text), Ok(key));
}

#[test]
fn exported_keys_have_the_wire_shape() {
    let zero = "AAAAAAAAAAAAAAAAAAAAAAAAAAAAAAAAAAAAAAAAAAA=";

    let key = SymKeyFormatInt { key: SymmetricKey::Aes([0u8; 32]), key_id: "abc".to_string() };
    assert_eq!(
        export_sym_key_to_string(key).unwrap(),
        format!("{{\"Aes\":{{\"key\":\"{}\",\"key_id\":\"abc\"}}}}", zero)
    );

    let key = PrivateKeyFormatInt { key: SecretKey::Ecies([0u8; 32]), key_id: "abc".to_string() };
    assert_eq!(
        export_private_key_to_string(key).unwrap(),
        format!("{{\"Ecies\":{{\"key\":\"{}\",\"key_id\":\"abc\"}}}}", zero)
    );

    let key = PublicKeyFormatInt { key: PublicKey::Ecies([0u8; 32]), key_id: "abc".to_string() };
    assert_eq!(
        export_public_key_to_string(key).unwrap(),
        format!("{{\"Ecies\":{{\"key\":\"{}\",\"key_id\":\"abc\"}}}}", zero)
    );

    let key = SignKeyFormatInt { key: SignKey::Ed25519([0u8; 32]), key_id: "abc".to_string() };
    assert_eq!(
        export_sign_key_to_string(key).unwrap(),
        format!("{{\"Ed25519\":{{\"key\":\"{}\",\"key_id\":\"abc\"}}}}", zero)
    );

    let key = VerifyKeyFormatInt { key: VerifyKey::Ed25519([0u8; 32]), key_id: "abc".to_string() };
    assert_eq!(
        export_verify_key_to_string(key).unwrap(),
        format!("{{\"Ed25519\":{{\"key\":\"{}\",\"key_id\":\"abc\"}}}}", zero)
    );
}

#[test]
fn import_fails_on_malformed_base64() {
    let format = SymKeyFormat::Aes { key: "no base64!".to_string(), key_id: "a".to_string() };
    assert_eq!(import_sym_key_from_format(&format), Err(Error::ImportSymmetricKeyFailed));

    let format = PrivateKeyFormat::Ecies { key: "no base64!".to_string(), key_id: "a".to_string() };
    assert_eq!(import_private_key_from_format(&format), Err(Error::ImportingPrivateKeyFailed));

    let format = PublicKeyFormat::Ecies { key: "no base64!".to_string(), key_id: "a".to_string() };
    assert_eq!(import_public_key_from_format(&format), Err(Error::ImportPublicKeyFailed));

    let format = SignKeyFormat::Ed25519 { key: "no base64!".to_string(), key_id: "a".to_string() };
    assert_eq!(import_sign_key_from_format(&format), Err(Error::ImportingSignKeyFailed));

    let format = VerifyKeyFormat::Ed25519 { key: "no base64!".to_string(), key_id: "a".to_string() };
    assert_eq!(import_verify_key_from_format(&format), Err(Error::ImportingKeyFromPemFailed));
}

#[test]
fn import_fails_on_wrong_decoded_length() {
    for length in [0usize, 31, 33] {
        let text = Base64::encode_string(&vec![1u8; length]);

        let format = SymKeyFormat::Aes { key: text.clone(), key_id: "a".to_string() };
        assert_eq!(import_sym_key_from_format(&format), Err(Error::ImportSymmetricKeyFailed));

        let format = PrivateKeyFormat::Ecies { key: text.clone(), key_id: "a".to_string() };
        assert_eq!(import_private_key_from_format(&format), Err(Error::ImportingPrivateKeyFailed));

        let format = PublicKeyFormat::Ecies { key: text.clone(), key_id: "a".to_string() };
        assert_eq!(import_public_key_from_format(&format), Err(Error::ImportPublicKeyFailed));

        let format = SignKeyFormat::Ed25519 { key: text.clone(), key_id: "a".to_string() };
        assert_eq!(import_sign_key_from_format(&format), Err(Error::ImportingSignKeyFailed));

        let format = VerifyKeyFormat::Ed25519 { key: text.clone(), key_id: "a".to_string() };
        assert_eq!(import_verify_key_from_format(&format), Err(Error::ImportingKeyFromPemFailed));
    }
}

#[test]
fn import_fails_on_unknown_algorithm_tag_and_malformed_json() {
    let zero = "AAAAAAAAAAAAAAAAAAAAAAAAAAAAAAAAAAAAAAAAAAA=";
    let other_tag = format!("{{\"Des\":{{\"key\":\"{}\",\"key_id\":\"abc\"}}}}", zero);
    let no_id = format!("{{\"Aes\":{{\"key\":\"{}\"}}}}", zero);
    let number_key = "{\"Aes\":{\"key\":1,\"key_id\":\"abc\"}}";

    for text in [other_tag.as_str(), no_id.as_str(), number_key, "not json", ""] {
        assert_eq!(import_sym_key(text), Err(Error::ImportSymmetricKeyFailed));
        assert_eq!(SymKeyFormat::from_string(text.as_bytes()), Err(Error::JsonParseFailed));
        assert_eq!(import_private_key(text), Err(Error::ImportingPrivateKeyFailed));
        assert_eq!(import_public_key(text), Err(Error::ImportPublicKeyFailed));
        assert_eq!(import_sign_key(text), Err(Error::ImportingSignKeyFailed));
        assert_eq!(import_verify_key(text), Err(Error::ImportingKeyFromPemFailed));
    }

    // a key of one kind is no key of another kind
    let sym = format!("{{\"Aes\":{{\"key\":\"{}\",\"key_id\":\"abc\"}}}}", zero);
    assert!(import_sym_key(&sym).is_ok());
    assert_eq!(import_private_key(&sym), Err(Error::ImportingPrivateKeyFailed));
    assert_eq!(import_sign_key(&sym), Err(Error::ImportingSignKeyFailed));
}

#[test]
fn formats_read_json_in_any_layout() {
    let text = " { \"Aes\" : { \"key_id\" : \"abc\" , \"key\" : \"a2V5\" } } ";
    assert_eq!(
        SymKeyFormat::from_string(text.as_bytes()),
        Ok(SymKeyFormat::Aes { key: "a2V5".to_string(), key_id: "abc".to_string() })
    );
}

#[test]
fn key_data_round_trips_through_its_text() {
    let (secret, public) = generate_static_keypair().unwrap();
    let (sign, verify) = generate_key_pair().unwrap();
    let data = KeyData {
        private_key: export_private_key(PrivateKeyFormatInt { key: secret, key_id: "e".to_string() }),
        public_key: export_public_key(PublicKeyFormatInt { key: public, key_id: "e".to_string() }),
        sign_key: export_sign_key(SignKeyFormatInt { key: sign, key_id: "s".to_string() }),
        verify_key: export_verify_key(VerifyKeyFormatInt { key: verify, key_id: "s".to_string() }),
    };

    let text = data.to_string();
    assert!(text.starts_with("{\"private_key\":{\"Ecies\":{\"key\":\""));
    assert_eq!(KeyData::from_string(text.as_bytes()), Ok(data));

    assert_eq!(KeyData::from_string(b"{\"private_key\":{}}"), Err(Error::JsonParseFailed));
    assert_eq!(KeyData::from_string(b"[]"), Err(Error::JsonParseFailed));
}

#[test]
fn pem_round_trips_and_rejects_malformed_text() {
    let pem = export_key_to_pem(&[0u8; 32]).unwrap();
    assert_eq!(
        pem,
        "-----BEGIN PUBLIC KEY-----\nAAAAAAAAAAAAAAAAAAAAAAAAAAAAAAAAAAAAAAAAAAA=\n-----END PUBLIC KEY-----\n"
    );
    assert_eq!(import_key_from_pem(&pem), Ok(vec![0u8; 32]));

    // the label is not looked at
    let other_label = pem.replace("PUBLIC KEY", "VERIFY KEY");
    assert_eq!(import_key_from_pem(&other_label), Ok(vec![0u8; 32]));

    assert_eq!(import_key_from_pem("no pem"), Err(Error::ImportingKeyFromPemFailed));
    assert_eq!(import_key_from_pem(""), Err(Error::ImportingKeyFromPemFailed));
    assert_eq!(
        import_key_from_pem("-----BEGIN PUBLIC KEY-----\n!!!\n-----END PUBLIC KEY-----\n"),
        Err(Error::ImportingKeyFromPemFailed)
    );
}

#[test]
fn public_and_verify_keys_round_trip_through_pem() {
    let (_, public) = generate_static_keypair().unwrap();
    let (_, verify) = generate_key_pair().unwrap();

    let pem = export_raw_public_key_to_pem(&public).unwrap();
    assert_eq!(import_public_key_from_pem_with_alg(&pem, "ECIES-ed25519"), Ok(public));
    assert_eq!(import_public_key_from_pem_with_alg(&pem, "RSA"), Err(Error::AlgNotFound));
    assert_eq!(
        import_public_key_from_pem_with_alg("no pem", "ECIES-ed25519"),
        Err(Error::ImportingKeyFromPemFailed)
    );

    let pem = export_raw_verify_key_to_pem(&verify).unwrap();
    assert_eq!(import_verify_key_from_pem_with_alg(&pem, "ED25519"), Ok(verify));
    assert_eq!(import_verify_key_from_pem_with_alg(&pem, "RSA"), Err(Error::AlgNotFound));

    let short = export_key_to_pem(&[1u8; 31]).unwrap();
    assert_eq!(
        import_public_key_from_pem_with_alg(&short, "ECIES-ed25519"),
        Err(Error::ImportPublicKeyFailed)
    );
    assert_eq!(
        import_verify_key_from_pem_with_alg(&short, "ED25519"),
        Err(Error::InitVerifyFailed)
    );
}

#[test]
fn keys_round_trip_through_what_others_receive() {
    let (_, public) = generate_static_keypair().unwrap();
    let (_, verify) = generate_key_pair().unwrap();
    let public = PublicKeyFormatInt { key: public, key_id: "e".to_string() };
    let verify = VerifyKeyFormatInt { key: verify, key_id: "s".to_string() };

    let data = export_public_key_to_user_data(&public).unwrap();
    assert_eq!(data.public_key_pem, export_raw_public_key_to_pem(&public.key).unwrap());
    assert_eq!(data.public_key_alg, "ECIES-ed25519");
    assert_eq!(data.public_key_id, "e");
    assert_eq!(import_public_key_from_user_data(&data), Ok(public));

    let data = export_verify_key_to_user_data(&verify).unwrap();
    assert_eq!(data.verify_key_pem, export_raw_verify_key_to_pem(&verify.key).unwrap());
    assert_eq!(data.verify_key_alg, "ED25519");
    assert_eq!(data.verify_key_id, "s");
    assert_eq!(import_verify_key_from_user_data(&data), Ok(verify));
}

#[test]
fn pem_and_base64_read_back_at_every_length() {
    for length in 1..200usize {
        let data: Vec<u8> = (0..length).map(|i| (i * 13 + length) as u8).collect();
        let pem = export_key_to_pem(&data).unwrap();
        assert_eq!(import_key_from_pem(&pem), Ok(data));
    }

    // an empty document is written, and does not read back
    let pem = export_key_to_pem(&[]).unwrap();
    assert_eq!(import_key_from_pem(&pem), Err(Error::ImportingKeyFromPemFailed));

    for length in 0..100usize {
        let data: Vec<u8> = (0..length).map(|i| (i * 7 + length) as u8).collect();
        let text = Base64::encode_string(&data);
        assert_eq!(Base64::decode_vec(&text).unwrap(), data);
    }
}
