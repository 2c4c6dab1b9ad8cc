use base64ct::{Base64, Encoding};

use sentc_crypto::alg::pw_hash::ClientRandomValue;
use sentc_crypto::crypto::{
    decrypt_asymmetric, decrypt_raw_asymmetric, decrypt_raw_symmetric,
    decrypt_raw_symmetric_with_aad, decrypt_string_asymmetric, decrypt_string_symmetric,
    decrypt_symmetric, decrypt_symmetric_with_aad, encrypt_asymmetric, encrypt_raw_asymmetric,
    encrypt_raw_asymmetric_with_entropy, encrypt_raw_symmetric, encrypt_raw_symmetric_with_aad,
    encrypt_raw_symmetric_with_nonce, encrypt_string_asymmetric, encrypt_string_symmetric,
    encrypt_symmetric, encrypt_symmetric_with_aad, finish_raw_encrypt,
    put_head_and_encrypted_data, split_head_and_encrypted_data, EncryptedHead, SignHead,
};
use sentc_crypto::error::{err_to_msg, Error, SdkError};
use sentc_crypto::group::{
    get_group_data, prepare_create, GroupKeyServerOutput, GroupOutData, GroupServerData,
};
use sentc_crypto::user::{
    done_login, prepare_login, register, DoneLoginServerKeysOutput, KeyDataInt, KeyDerivedData,
    PrepareLoginSaltServerOutput, RegisterData,
};

fn crypto_prepare_login_output(derived: &KeyDerivedData) -> PrepareLoginSaltServerOutput {
    let random_value = Base64::decode_vec(derived.client_random_value.as_str()).unwrap();
    let random_value =
        ClientRandomValue::from_bytes(&random_value, derived.derived_alg.as_str()).unwrap();
    let salt = random_value.generate_salt("");
    PrepareLoginSaltServerOutput {
        salt_string: Base64::encode_string(&salt),
        derived_encryption_key_alg: derived.derived_alg.clone(),
    }
}

fn crypto_done_login_output(data: RegisterData) -> DoneLoginServerKeysOutput {
    DoneLoginServerKeysOutput {
        encrypted_master_key: data.master_key.encrypted_master_key,
        encrypted_private_key: data.derived.encrypted_private_key,
        public_key_string: data.derived.public_key,
        keypair_encrypt_alg: data.derived.keypair_encrypt_alg,
        encrypted_sign_key: data.derived.encrypted_sign_key,
        verify_key_string: data.derived.verify_key,
        keypair_sign_alg: data.derived.keypair_sign_alg,
        keypair_encrypt_id: "abc".to_string(),
        keypair_sign_id: "dfg".to_string(),
    }
}

fn crypto_create_user() -> KeyDataInt {
    let password = "12345";
    let out = register("admin", password).unwrap();
    let server_output = crypto_prepare_login_output(&out.derived);
    let (_auth_key, master_key_encryption_key) = prepare_login(password, &server_output).unwrap();
    let server_output = crypto_done_login_output(out);
    done_login(&master_key_encryption_key, &server_output).unwrap()
}

fn crypto_create_group(user: &KeyDataInt) -> (GroupOutData, GroupServerData) {
    let group = prepare_create(&user.public_key).unwrap();
    let key_output = GroupKeyServerOutput {
        encrypted_group_key: group.encrypted_group_key,
        group_key_alg: group.group_key_alg,
        group_key_id: "123".to_string(),
        encrypted_private_group_key: group.encrypted_private_group_key,
        public_group_key: group.public_group_key,
        keypair_encrypt_alg: group.keypair_encrypt_alg,
        key_pair_id: "123".to_string(),
        user_public_key_id: "123".to_string(),
    };
    let server_output = GroupServerData {
        group_id: "123".to_string(),
        keys: vec![key_output],
        keys_page: 0,
    };
    let out = get_group_data(&user.private_key, &server_output).unwrap();
    (out, server_output)
}

#[test]
fn test_encrypt_decrypt_sym_raw() {
    let user = crypto_create_user();
    let (group, _) = crypto_create_group(&user);
    let group_key = &group.keys[0].group_key;

    let text = "123*+^êéèüöß@€&$";

    let (head, encrypted) = encrypt_raw_symmetric(group_key, text.as_bytes(), None).unwrap();

    let decrypted = decrypt_raw_symmetric(group_key, &encrypted, &head, None).unwrap();

    assert_eq!(text.as_bytes(), decrypted);
}

#[test]
fn test_encrypt_decrypt_sym_raw_with_sig() {
    let user = crypto_create_user();
    let (group, _) = crypto_create_group(&user);
    let group_key = &group.keys[0].group_key;

    let text = "123*+^êéèüöß@€&$";

    let (head, encrypted) =
        encrypt_raw_symmetric(group_key, text.as_bytes(), Some(&user.sign_key)).unwrap();

    let decrypted =
        decrypt_raw_symmetric(group_key, &encrypted, &head, Some(&user.exported_verify_key))
            .unwrap();

    assert_eq!(text.as_bytes(), decrypted);
}

#[test]
fn test_encrypt_decrypt_asym_raw() {
    let text = "123*+^êéèüöß@€&$";
    let user = crypto_create_user();

    let (head, encrypted) =
        encrypt_raw_asymmetric(&user.exported_public_key, text.as_bytes(), None).unwrap();

    let decrypted = decrypt_raw_asymmetric(&user.private_key, &encrypted, &head, None).unwrap();

    assert_eq!(text.as_bytes(), decrypted);
}

#[test]
fn test_encrypt_decrypt_asym_raw_with_sig() {
    let text = "123*+^êéèüöß@€&$";
    let user = crypto_create_user();

    let (head, encrypted) =
        encrypt_raw_asymmetric(&user.exported_public_key, text.as_bytes(), Some(&user.sign_key))
            .unwrap();

    let decrypted = decrypt_raw_asymmetric(
        &user.private_key,
        &encrypted,
        &head,
        Some(&user.exported_verify_key),
    )
    .unwrap();

    assert_eq!(text.as_bytes(), decrypted);
}

#[test]
fn test_encrypt_decrypt_sym() {
    let user = crypto_create_user();
    let (group, _) = crypto_create_group(&user);
    let group_key = &group.keys[0].group_key;

    let text = "123*+^êéèüöß@€&$";

    let encrypted = encrypt_symmetric(group_key, text.as_bytes(), None).unwrap();

    let decrypted = decrypt_symmetric(group_key, &encrypted, None).unwrap();

    assert_eq!(text.as_bytes(), decrypted);
}

#[test]
fn test_encrypt_decrypt_sym_with_sig() {
    let user = crypto_create_user();
    let (group, _) = crypto_create_group(&user);
    let group_key = &group.keys[0].group_key;

    let text = "123*+^êéèüöß@€&$";

    let encrypted = encrypt_symmetric(group_key, text.as_bytes(), Some(&user.sign_key)).unwrap();

    let decrypted =
        decrypt_symmetric(group_key, &encrypted, Some(&user.exported_verify_key)).unwrap();

    assert_eq!(text.as_bytes(), decrypted);
}

#[test]
fn test_encrypt_decrypt_asym() {
    let text = "123*+^êéèüöß@€&$";
    let user = crypto_create_user();

    let encrypted = encrypt_asymmetric(&user.exported_public_key, text.as_bytes(), None).unwrap();

    let decrypted = decrypt_asymmetric(&user.private_key, &encrypted, None).unwrap();

    assert_eq!(text.as_bytes(), decrypted);
}

#[test]
fn test_encrypt_decrypt_asym_with_sig() {
    let text = "123*+^êéèüöß@€&$";
    let user = crypto_create_user();

    let encrypted =
        encrypt_asymmetric(&user.exported_public_key, text.as_bytes(), Some(&user.sign_key))
            .unwrap();

    let decrypted =
        decrypt_asymmetric(&user.private_key, &encrypted, Some(&user.exported_verify_key))
            .unwrap();

    assert_eq!(text.as_bytes(), decrypted);
}

#[test]
fn test_encrypt_decrypt_string_sym() {
    let user = crypto_create_user();
    let (group, _) = crypto_create_group(&user);
    let group_key = &group.keys[0].group_key;

    let text = "123*+^êéèüöß@€&$";

    let encrypted = encrypt_string_symmetric(group_key, text.as_bytes(), None).unwrap();

    let decrypted = decrypt_string_symmetric(group_key, &encrypted, None).unwrap();

    assert_eq!(text.as_bytes(), decrypted);
}

#[test]
fn test_encrypt_decrypt_string_sym_with_sig() {
    let user = crypto_create_user();
    let (group, _) = crypto_create_group(&user);
    let group_key = &group.keys[0].group_key;

    let text = "123*+^êéèüöß@€&$";

    let encrypted =
        encrypt_string_symmetric(group_key, text.as_bytes(), Some(&user.sign_key)).unwrap();

    let decrypted =
        decrypt_string_symmetric(group_key, &encrypted, Some(&user.exported_verify_key)).unwrap();

    assert_eq!(text.as_bytes(), decrypted);
}

#[test]
fn test_encrypt_decrypt_string_asym() {
    let text = "123*+^êéèüöß@€&$";
    let user = crypto_create_user();

    let encrypted =
        encrypt_string_asymmetric(&user.exported_public_key, text.as_bytes(), None).unwrap();

    let decrypted = decrypt_string_asymmetric(&user.private_key, &encrypted, None).unwrap();

    assert_eq!(text.as_bytes(), decrypted);
}

#[test]
fn test_encrypt_decrypt_string_asym_with_sig() {
    let text = "123*+^êéèüöß@€&$";
    let user = crypto_create_user();

    let encrypted = encrypt_string_asymmetric(
        &user.exported_public_key,
        text.as_bytes(),
        Some(&user.sign_key),
    )
    .unwrap();

    let decrypted = decrypt_string_asymmetric(
        &user.private_key,
        &encrypted,
        Some(&user.exported_verify_key),
    )
    .unwrap();

    assert_eq!(text.as_bytes(), decrypted);
}

#[test]
fn encrypt_decrypt_empty_plaintext_in_every_mode() {
    let user = crypto_create_user();
    let (group, _) = crypto_create_group(&user);
    let group_key = &group.keys[0].group_key;
    let empty: &[u8] = b"";

    let encrypted = encrypt_symmetric(group_key, empty, None).unwrap();
    assert_eq!(decrypt_symmetric(group_key, &encrypted, None).unwrap(), empty);

    let encrypted = encrypt_symmetric(group_key, empty, Some(&user.sign_key)).unwrap();
    assert_eq!(
        decrypt_symmetric(group_key, &encrypted, Some(&user.exported_verify_key)).unwrap(),
        empty
    );

    let encrypted = encrypt_asymmetric(&user.exported_public_key, empty, None).unwrap();
    assert_eq!(decrypt_asymmetric(&user.private_key, &encrypted, None).unwrap(), empty);

    let encrypted =
        encrypt_asymmetric(&user.exported_public_key, empty, Some(&user.sign_key)).unwrap();
    assert_eq!(
        decrypt_asymmetric(&user.private_key, &encrypted, Some(&user.exported_verify_key))
            .unwrap(),
        empty
    );
}

#[test]
fn signed_data_decrypts_without_verify_key() {
    let user = crypto_create_user();
    let (group, _) = crypto_create_group(&user);
    let group_key = &group.keys[0].group_key;

    let encrypted = encrypt_symmetric(group_key, b"signed", Some(&user.sign_key)).unwrap();

    assert_eq!(decrypt_symmetric(group_key, &encrypted, None).unwrap(), b"signed");
}

#[test]
fn head_names_key_and_signer() {
    let user = crypto_create_user();
    let (group, _) = crypto_create_group(&user);
    let group_key = &group.keys[0].group_key;

    let (head, _) = encrypt_raw_symmetric(group_key, b"data", None).unwrap();
    assert_eq!(head, EncryptedHead { id: "123".to_string(), sign: None });

    let (head, _) = encrypt_raw_symmetric(group_key, b"data", Some(&user.sign_key)).unwrap();
    assert_eq!(
        head,
        EncryptedHead {
            id: "123".to_string(),
            sign: Some(SignHead { id: "dfg".to_string(), alg: "ED25519".to_string() }),
        }
    );

    let (head, _) = encrypt_raw_asymmetric(&user.exported_public_key, b"data", None).unwrap();
    assert_eq!(head.id, "abc");
}

#[test]
fn head_text_has_the_wire_shape() {
    let head = EncryptedHead { id: "k\"1".to_string(), sign: None };
    assert_eq!(head.to_string(), "{\"id\":\"k\\\"1\",\"sign\":null}");

    let head = EncryptedHead {
        id: "k1".to_string(),
        sign: Some(SignHead { id: "s1".to_string(), alg: "ED25519".to_string() }),
    };
    assert_eq!(
        head.to_string(),
        "{\"id\":\"k1\",\"sign\":{\"id\":\"s1\",\"alg\":\"ED25519\"}}"
    );
}

#[test]
fn head_reads_back_what_was_written() {
    let heads = [
        EncryptedHead { id: "k1".to_string(), sign: None },
        EncryptedHead { id: "quote\" back\\slash \u{1} é".to_string(), sign: None },
        EncryptedHead {
            id: "k1".to_string(),
            sign: Some(SignHead { id: "s1".to_string(), alg: "ED25519".to_string() }),
        },
    ];
    for head in heads {
        let text = head.to_string();
        assert_eq!(EncryptedHead::from_bytes(text.as_bytes()), Ok(head));
    }
}

#[test]
fn head_parsing_accepts_other_layouts_and_rejects_wrong_shapes() {
    assert_eq!(
        EncryptedHead::from_bytes(b" { \"sign\" : null , \"id\" : \"a\" } "),
        Ok(EncryptedHead { id: "a".to_string(), sign: None })
    );
    assert_eq!(
        EncryptedHead::from_bytes(b"{\"id\":\"a\"}"),
        Ok(EncryptedHead { id: "a".to_string(), sign: None })
    );
    let no_head = Err(SdkError::Base(Error::JsonParseFailed));
    assert_eq!(EncryptedHead::from_bytes(b"{\"id\":1,\"sign\":null}"), no_head);
    assert_eq!(EncryptedHead::from_bytes(b"{\"sign\":null}"), no_head);
    assert_eq!(EncryptedHead::from_bytes(b"{\"id\":\"a\",\"sign\":\"x\"}"), no_head);
    assert_eq!(EncryptedHead::from_bytes(b"{\"id\":\"a\",\"sign\":{\"id\":\"s\"}}"), no_head);
}

#[test]
fn head_parsing_reports_what_the_parser_said() {
    assert_eq!(
        EncryptedHead::from_bytes(b"not json"),
        Err(SdkError::JsonParseFailed("expected ident at line 1 column 2".to_string()))
    );
    assert_eq!(
        EncryptedHead::from_bytes(b""),
        Err(SdkError::JsonParseFailed("EOF while parsing a value at line 1 column 0".to_string()))
    );
    assert_eq!(
        EncryptedHead::from_bytes(b"{\"id\":\"a\""),
        Err(SdkError::JsonParseFailed("EOF while parsing an object at line 1 column 9".to_string()))
    );
}

#[test]
fn parser_message_reaches_the_application() {
    let failure = EncryptedHead::from_bytes(b"not json").unwrap_err();
    assert_eq!(
        err_to_msg(failure),
        "{\"status\": \"client_101\", \"error_message\": \"expected ident at line 1 column 2\"}"
    );
}

#[test]
fn framing_splits_at_the_first_zero_byte() {
    let head = EncryptedHead { id: "k1".to_string(), sign: None };
    let framed = put_head_and_encrypted_data(&head, &[7, 0, 9]);

    let mut expected = b"{\"id\":\"k1\",\"sign\":null}".to_vec();
    expected.extend_from_slice(&[0, 7, 0, 9]);
    assert_eq!(framed, expected);

    let (read, rest) = split_head_and_encrypted_data(&framed).unwrap();
    assert_eq!(read, head);
    assert_eq!(rest, &[7, 0, 9]);
}

#[test]
fn framing_without_zero_byte_or_head_fails() {
    assert_eq!(
        split_head_and_encrypted_data(b"{\"id\":\"k1\",\"sign\":null}"),
        Err(SdkError::Base(Error::JsonParseFailed))
    );
    assert_eq!(
        split_head_and_encrypted_data(b""),
        Err(SdkError::JsonParseFailed("EOF while parsing a value at line 1 column 0".to_string()))
    );
    assert_eq!(
        split_head_and_encrypted_data(&[0, 1, 2]),
        Err(SdkError::JsonParseFailed("EOF while parsing a value at line 1 column 0".to_string()))
    );
    assert_eq!(
        split_head_and_encrypted_data(b"{\"id\":1}\x00abc"),
        Err(SdkError::Base(Error::JsonParseFailed))
    );
}

#[test]
fn framed_head_with_empty_ciphertext_is_too_short_to_decrypt() {
    let user = crypto_create_user();
    let (group, _) = crypto_create_group(&user);
    let group_key = &group.keys[0].group_key;

    let head = EncryptedHead { id: "123".to_string(), sign: None };
    let framed = put_head_and_encrypted_data(&head, &[]);

    assert_eq!(
        decrypt_symmetric(group_key, &framed, None),
        Err(SdkError::Base(Error::DecryptionFailedCiphertextShort))
    );
}

#[test]
fn tampered_ciphertext_fails_to_decrypt() {
    let user = crypto_create_user();
    let (group, _) = crypto_create_group(&user);
    let group_key = &group.keys[0].group_key;

    let (head, mut encrypted) = encrypt_raw_symmetric(group_key, b"payload", None).unwrap();
    let last = encrypted.len() - 1;
    encrypted[last] ^= 1;

    assert_eq!(
        decrypt_raw_symmetric(group_key, &encrypted, &head, None),
        Err(SdkError::Base(Error::DecryptionFailed))
    );
}

#[test]
fn tampered_signed_data_fails_verification() {
    let user = crypto_create_user();
    let (group, _) = crypto_create_group(&user);
    let group_key = &group.keys[0].group_key;

    let (head, mut encrypted) =
        encrypt_raw_symmetric(group_key, b"payload", Some(&user.sign_key)).unwrap();
    let last = encrypted.len() - 1;
    encrypted[last] ^= 1;

    assert_eq!(
        decrypt_raw_symmetric(group_key, &encrypted, &head, Some(&user.exported_verify_key)),
        Err(SdkError::VerifyFailed)
    );
}

#[test]
fn verify_key_of_another_signer_is_refused() {
    let user = crypto_create_user();
    let other = crypto_create_user();
    let (group, _) = crypto_create_group(&user);
    let group_key = &group.keys[0].group_key;

    let (head, encrypted) =
        encrypt_raw_symmetric(group_key, b"payload", Some(&user.sign_key)).unwrap();

    // Same identifier, other key: the signature does not verify.
    assert_eq!(
        decrypt_raw_symmetric(group_key, &encrypted, &head, Some(&other.exported_verify_key)),
        Err(SdkError::VerifyFailed)
    );

    // Other identifier: the key is not the one that the head names.
    let mut renamed = user.exported_verify_key.clone();
    renamed.verify_key_id = "other".to_string();
    assert_eq!(
        decrypt_raw_symmetric(group_key, &encrypted, &head, Some(&renamed)),
        Err(SdkError::SigFoundNotKey)
    );
}

#[test]
fn signed_head_with_unknown_algorithm_is_refused() {
    let user = crypto_create_user();
    let (group, _) = crypto_create_group(&user);
    let group_key = &group.keys[0].group_key;

    let (mut head, encrypted) =
        encrypt_raw_symmetric(group_key, b"payload", Some(&user.sign_key)).unwrap();
    head.sign = Some(SignHead { id: "dfg".to_string(), alg: "RSA".to_string() });

    assert_eq!(
        decrypt_raw_symmetric(group_key, &encrypted, &head, None),
        Err(SdkError::Base(Error::AlgNotFound))
    );
}

#[test]
fn signed_head_on_short_data_is_refused() {
    let user = crypto_create_user();
    let (group, _) = crypto_create_group(&user);
    let group_key = &group.keys[0].group_key;

    let head = EncryptedHead {
        id: "123".to_string(),
        sign: Some(SignHead { id: "dfg".to_string(), alg: "ED25519".to_string() }),
    };

    assert_eq!(
        decrypt_raw_symmetric(group_key, &[1u8; 64], &head, None),
        Err(SdkError::Base(Error::DataToSignTooShort))
    );
    assert_eq!(
        decrypt_raw_symmetric(group_key, &[1u8; 10], &head, Some(&user.exported_verify_key)),
        Err(SdkError::Base(Error::DataToSignTooShort))
    );
}

#[test]
fn wrong_key_fails_to_decrypt() {
    let user = crypto_create_user();
    let other = crypto_create_user();
    let (group, _) = crypto_create_group(&user);
    let (other_group, _) = crypto_create_group(&other);

    let encrypted = encrypt_symmetric(&group.keys[0].group_key, b"payload", None).unwrap();
    assert_eq!(
        decrypt_symmetric(&other_group.keys[0].group_key, &encrypted, None),
        Err(SdkError::Base(Error::DecryptionFailed))
    );

    let encrypted = encrypt_asymmetric(&user.exported_public_key, b"payload", None).unwrap();
    assert_eq!(
        decrypt_asymmetric(&other.private_key, &encrypted, None),
        Err(SdkError::Base(Error::DecryptionFailed))
    );
}

#[test]
fn associated_data_must_match() {
    let user = crypto_create_user();
    let (group, _) = crypto_create_group(&user);
    let group_key = &group.keys[0].group_key;

    let (head, encrypted) =
        encrypt_raw_symmetric_with_aad(group_key, b"payload", b"content-1", None).unwrap();
    assert_eq!(
        decrypt_raw_symmetric_with_aad(group_key, &encrypted, b"content-1", &head, None).unwrap(),
        b"payload"
    );
    assert_eq!(
        decrypt_raw_symmetric_with_aad(group_key, &encrypted, b"content-2", &head, None),
        Err(SdkError::Base(Error::DecryptionFailed))
    );

    let framed = encrypt_symmetric_with_aad(group_key, b"payload", b"content-1", None).unwrap();
    assert_eq!(
        decrypt_symmetric_with_aad(group_key, &framed, b"content-1", None).unwrap(),
        b"payload"
    );
    assert_eq!(
        decrypt_symmetric(group_key, &framed, None),
        Err(SdkError::Base(Error::DecryptionFailed))
    );
}

#[test]
fn text_that_is_no_base64_is_refused() {
    let user = crypto_create_user();
    let (group, _) = crypto_create_group(&user);

    assert_eq!(
        decrypt_string_symmetric(&group.keys[0].group_key, "no base64!", None),
        Err(SdkError::DecodeEncryptedDataFailed)
    );
    assert_eq!(
        decrypt_string_asymmetric(&user.private_key, "no base64!", None),
        Err(SdkError::DecodeEncryptedDataFailed)
    );
}

#[test]
fn encrypting_for_an_unreadable_public_key_fails() {
    let mut user = crypto_create_user();
    user.exported_public_key.public_key_pem = "no pem".to_string();

    assert_eq!(
        encrypt_raw_asymmetric(&user.exported_public_key, b"payload", None),
        Err(SdkError::Base(Error::ImportingKeyFromPemFailed))
    );

    let mut user = crypto_create_user();
    user.exported_public_key.public_key_alg = "RSA".to_string();

    assert_eq!(
        encrypt_asymmetric(&user.exported_public_key, b"payload", None),
        Err(SdkError::Base(Error::AlgNotFound))
    );
}

#[test]
fn two_encryptions_of_one_plaintext_differ() {
    let user = crypto_create_user();
    let (group, _) = crypto_create_group(&user);
    let group_key = &group.keys[0].group_key;

    let first = encrypt_symmetric(group_key, b"payload", None).unwrap();
    let second = encrypt_symmetric(group_key, b"payload", None).unwrap();

    assert_ne!(first, second);
}

#[test]
fn raw_encryption_is_a_function_of_its_random_bytes() {
    let user = crypto_create_user();
    let (group, _) = crypto_create_group(&user);
    let group_key = &group.keys[0].group_key;
    let nonce = [3u8; 12];

    // unsigned: the head names the key, the data is the ciphertext
    let (head, encrypted) =
        encrypt_raw_symmetric_with_nonce(group_key, b"data", b"aad", None, &nonce).unwrap();
    let ciphertext = group_key.key.encrypt_with_nonce(&nonce, b"aad", b"data").unwrap();
    assert_eq!(head, EncryptedHead { id: "123".to_string(), sign: None });
    assert_eq!(encrypted, ciphertext);

    // signed: the signature of the ciphertext stands in front of it
    let (head, encrypted) =
        encrypt_raw_symmetric_with_nonce(group_key, b"data", b"aad", Some(&user.sign_key), &nonce)
            .unwrap();
    let mut expected = user.sign_key.key.sign_only(&ciphertext).to_vec();
    expected.extend_from_slice(&ciphertext);
    assert_eq!(head.sign, Some(SignHead { id: "dfg".to_string(), alg: "ED25519".to_string() }));
    assert_eq!(encrypted, expected);
    assert_eq!(
        finish_raw_encrypt("123", ciphertext.clone(), Some(&user.sign_key)),
        Ok((head, expected))
    );

    assert_eq!(
        encrypt_raw_symmetric_with_nonce(group_key, b"data", b"aad", None, &[3u8; 11]),
        Err(SdkError::Base(Error::EncryptionFailed))
    );

    let entropy = [5u8; 44];
    let (head, encrypted) =
        encrypt_raw_asymmetric_with_entropy(&user.exported_public_key, b"data", None, &entropy)
            .unwrap();
    let ciphertext =
        user.public_key.key.encrypt_with_ephemeral(&[5u8; 32], &[5u8; 12], b"data").unwrap();
    assert_eq!(head, EncryptedHead { id: "abc".to_string(), sign: None });
    assert_eq!(encrypted, ciphertext);
    assert_eq!(
        encrypt_raw_asymmetric_with_entropy(&user.exported_public_key, b"data", None, &[5u8; 43]),
        Err(SdkError::Base(Error::EncryptionFailedRng))
    );
}

#[test]
fn head_text_holds_no_zero_byte_and_reads_back() {
    let ids = ["k1", "", "a\u{0}b", "quote\" back\\slash", "line\nbreak\ttab", "é€😀"];
    for id in ids {
        for sign in [None, Some(SignHead { id: id.to_string(), alg: "ED25519".to_string() })] {
            let head = EncryptedHead { id: id.to_string(), sign };
            let text = head.to_string();
            assert!(!text.as_bytes().contains(&0));
            assert_eq!(EncryptedHead::from_bytes(text.as_bytes()), Ok(head.clone()));

            let framed = put_head_and_encrypted_data(&head, &[0, 1, 0]);
            let (read, rest) = split_head_and_encrypted_data(&framed).unwrap();
            assert_eq!(read, head);
            assert_eq!(rest, &[0, 1, 0]);
        }
    }
}

#[test]
fn framed_round_trip_with_an_identifier_that_needs_escaping() {
    let user = crypto_create_user();
    let (group, _) = crypto_create_group(&user);
    let mut group_key = group.keys[0].group_key.clone();
    group_key.key_id = "id \"with\" \u{0} and \\".to_string();

    let encrypted = encrypt_symmetric(&group_key, b"data", Some(&user.sign_key)).unwrap();
    assert_eq!(
        decrypt_symmetric(&group_key, &encrypted, Some(&user.exported_verify_key)).unwrap(),
        b"data"
    );
}

#[test]
fn heads_read_back_whatever_their_identifiers_hold() {
    let texts = [
        "",
        "k1",
        "with \"quotes\" and \\ backslash",
        "line\nbreak\ttab\r",
        "zero\0inside",
        "\u{1}\u{1f}\u{7f}",
        "ünïcödé 鍵 🔑",
        "{\"id\":\"x\",\"sign\":null}",
        "/~0~1",
    ];
    for id in texts {
        let head = EncryptedHead { id: id.to_string(), sign: None };
        assert!(head.reads_back(), "unsigned head with id {id:?}");
        assert_eq!(EncryptedHead::from_bytes(head.to_string().as_bytes()), Ok(head.clone()));
        for alg in texts {
            let head = EncryptedHead {
                id: id.to_string(),
                sign: Some(SignHead { id: alg.to_string(), alg: id.to_string() }),
            };
            assert!(head.reads_back(), "signed head with id {id:?} and signer {alg:?}");
            let framed = put_head_and_encrypted_data(&head, &[0, 1, 0]);
            let (read, rest) = split_head_and_encrypted_data(&framed).unwrap();
            assert_eq!(read, head);
            assert_eq!(rest, &[0, 1, 0]);
        }
    }
}

#[test]
fn framed_round_trip_holds_for_odd_identifiers_and_every_length() {
    let user = crypto_create_user();
    let (group, _) = crypto_create_group(&user);
    let mut group_key = group.keys[0].group_key.clone();
    let mut sign_key = user.sign_key.clone();
    let mut verify_key = user.exported_verify_key.clone();

    for id in ["", "a\"b\\c", "zero\0inside", "line\nbreak", "鍵 🔑"] {
        group_key.key_id = id.to_string();
        sign_key.key_id = id.to_string();
        verify_key.verify_key_id = id.to_string();

        for length in [0usize, 1, 15, 16, 17, 255] {
            let data: Vec<u8> = (0..length).map(|i| (i * 7) as u8).collect();

            let encrypted = encrypt_symmetric(&group_key, &data, None).unwrap();
            assert_eq!(decrypt_symmetric(&group_key, &encrypted, None), Ok(data.clone()));

            let encrypted = encrypt_symmetric(&group_key, &data, Some(&sign_key)).unwrap();
            assert_eq!(decrypt_symmetric(&group_key, &encrypted, None), Ok(data.clone()));
            assert_eq!(
                decrypt_symmetric(&group_key, &encrypted, Some(&verify_key)),
                Ok(data.clone())
            );

            let text = encrypt_string_symmetric(&group_key, &data, Some(&sign_key)).unwrap();
            assert_eq!(
                decrypt_string_symmetric(&group_key, &text, Some(&verify_key)),
                Ok(data.clone())
            );
        }
    }
}
