use base64ct::{Base64, Encoding};

use sentc_crypto::alg::asym::SecretKey;
use sentc_crypto::alg::pw_hash::ClientRandomValue;
use sentc_crypto::error::{Error, SdkError};
use sentc_crypto::server::ServerOutput;
use sentc_crypto::user::{
    change_password, done_check_user_identifier_available, done_login, done_register,
    done_register_device_start, export_master_key_encryption_key, generate_user_register_data,
    import_master_key_encryption_key, prepare_check_user_identifier_available, prepare_login,
    prepare_login_start, prepare_refresh_jwt, prepare_register_device, prepare_update_user_keys,
    prepare_user_identifier_update, register, register_with, reset_password,
    reset_password_with, change_password_with, DoneLoginServerKeysOutput,
    KeyDerivedData, MasterKeyFormat, MultipleLoginServerOutput, PrepareLoginSaltServerOutput,
    RegisterData,
    RegisterServerOutput, UserDeviceRegisterOutput, UserIdentifierAvailableServerOutput,
};
use sentc_crypto::util::{export_private_key, PrivateKeyFormat};

fn simulate_server_prepare_login(derived: &KeyDerivedData) -> PrepareLoginSaltServerOutput {
    // normally the salt gets calc by the api
    let random_value = Base64::decode_vec(derived.client_random_value.as_str()).unwrap();
    let random_value =
        ClientRandomValue::from_bytes(&random_value, derived.derived_alg.as_str()).unwrap();
    let salt = random_value.generate_salt("");
    PrepareLoginSaltServerOutput {
        salt_string: Base64::encode_string(&salt),
        derived_encryption_key_alg: derived.derived_alg.clone(),
    }
}

fn simulate_server_done_login(data: RegisterData) -> DoneLoginServerKeysOutput {
    DoneLoginServerKeysOutput {
        encrypted_master_key: data.master_key.encrypted_master_key,
        encrypted_private_key: data.derived.encrypted_private_key,
        public_key_string: data.derived.public_key,
        keypair_encrypt_alg: data.derived.keypair_encrypt_alg,
        encrypted_sign_key: data.derived.encrypted_sign_key,
        verify_key_string: data.derived.verify_key,
        keypair_sign_alg: data.derived.keypair_sign_alg,
        keypair_encrypt_id: "abc".to_string(),
        keypair_sign_id: "dfg".to_string(),
    }
}

#[test]
fn user_test_register() {
    let username = "admin";
    let password = "abc*èéöäüê";

    let out = register(username, password).unwrap();

    println!("{:?}", out);
}

#[test]
fn user_rust_test_register() {
    let username = "admin";
    let password = "abc*èéöäüê";

    let out = register(username, password).unwrap();

    println!("rust: {:?}", out);
}

#[test]
fn test_register_with_generated_data() {
    let (username, password) = generate_user_register_data().unwrap();

    register(&username, &password).unwrap();
}

#[test]
fn generated_register_data_is_fresh_base64() {
    let (username, password) = generate_user_register_data().unwrap();
    let (username2, password2) = generate_user_register_data().unwrap();

    assert_eq!(Base64::decode_vec(&username).unwrap().len(), 20);
    assert_eq!(Base64::decode_vec(&password).unwrap().len(), 40);
    assert_ne!(username, username2);
    assert_ne!(password, password2);
}

#[test]
fn user_test_register_and_login() {
    let username = "admin";
    let password = "abc*èéöäüê";

    let out = register(username, password).unwrap();

    let server_output = simulate_server_prepare_login(&out.derived);

    // back to the client, send prep login out string to the server if it is no err
    let (_auth_key, master_key_encryption_key) = prepare_login(password, &server_output).unwrap();

    // the application keeps the key between the two steps in its exported format
    let master_key_encryption_key =
        export_master_key_encryption_key(&master_key_encryption_key).to_string();
    let master_key_encryption_key = import_master_key_encryption_key(
        &MasterKeyFormat::from_string(master_key_encryption_key.as_str()).unwrap(),
    )
    .unwrap();

    let server_output = simulate_server_done_login(out);

    // now save the values
    let login_out = done_login(&master_key_encryption_key, &server_output).unwrap();

    let private_key = match export_private_key(login_out.private_key) {
        PrivateKeyFormat::Ecies { key_id: _, key } => key,
    };

    assert_ne!(private_key, "");
}

#[test]
fn user_rust_test_register_and_login() {
    let username = "admin";
    let password = "abc*èéöäüê";

    let out = register(username, password).unwrap();

    let server_output = simulate_server_prepare_login(&out.derived);

    // back to the client, send prep login out string to the server if it is no err
    let (_, master_key_encryption_key) = prepare_login(password, &server_output).unwrap();

    let server_output = simulate_server_done_login(out);

    // now save the values
    let login_out = done_login(&master_key_encryption_key, &server_output).unwrap();

    let SecretKey::Ecies(private_key) = login_out.private_key.key;

    let mut arr = [0u8; 32];
    arr[0] = 123;
    arr[1] = 255;
    arr[2] = 254;
    arr[3] = 0;

    assert_ne!(private_key, arr);
}

#[test]
fn user_test_change_password() {
    let username = "admin";
    let password = "abc*èéöäüê";
    let new_password = "abcdfg";

    let out = register(username, password).unwrap();

    let salt_from_rand_value = simulate_server_prepare_login(&out.derived);

    let pw_change_out = change_password(
        password,
        new_password,
        salt_from_rand_value.salt_string.as_str(),
        out.master_key.encrypted_master_key.as_str(),
        out.derived.derived_alg.as_str(),
    )
    .unwrap();

    assert_ne!(pw_change_out.new_client_random_value, out.derived.client_random_value);

    assert_ne!(pw_change_out.new_encrypted_master_key, out.master_key.encrypted_master_key);
}

#[test]
fn user_rust_test_change_password() {
    let username = "admin";
    let password = "abc*èéöäüê";
    let new_password = "abcdfg";

    let out = register(username, password).unwrap();
    let out_old = out.clone();

    let prep_server_output = simulate_server_prepare_login(&out.derived);
    let done_server_output = simulate_server_done_login(out);

    let pw_change_out = change_password(
        password,
        new_password,
        prep_server_output.salt_string.as_str(),
        done_server_output.encrypted_master_key.as_str(),
        prep_server_output.derived_encryption_key_alg.as_str(),
    )
    .unwrap();

    assert_ne!(pw_change_out.new_client_random_value, out_old.derived.client_random_value);

    assert_ne!(pw_change_out.new_encrypted_master_key, out_old.master_key.encrypted_master_key);
}

#[test]
fn test_new_device() {
    // 1. register the main device
    let out = register("hello", "1234").unwrap();

    let server_output = simulate_server_prepare_login(&out.derived);
    let (_auth_key, master_key_encryption_key) = prepare_login("1234", &server_output).unwrap();

    let server_output = simulate_server_done_login(out);

    // now save the values
    let user = done_login(
        &master_key_encryption_key, // the value comes from prepare login
        &server_output,
    )
    .unwrap();

    // 2. prepare the device register
    let device_id = "hello_device";
    let device_pw = "12345";

    let input = register(device_id, device_pw).unwrap();

    // 3. + 4. simulate server: the server output
    let server_output = UserDeviceRegisterOutput {
        device_id: "abc".to_string(),
        token: "1234567890".to_string(),
        device_identifier: device_id.to_string(),
        public_key_string: input.derived.public_key.to_string(),
        keypair_encrypt_alg: input.derived.keypair_encrypt_alg.to_string(),
    };

    let server_output = ServerOutput {
        status: true,
        err_msg: None,
        err_code: None,
        result: Some(server_output),
    };

    // 5. check the server output
    done_register_device_start(server_output.clone()).unwrap();

    // 6. register the device with the main device
    let out = prepare_register_device(server_output).unwrap();
    assert_eq!(out.token, "1234567890");

    // 7. check login with new device
    let server_output = simulate_server_prepare_login(&input.derived);
    let (_auth_key, master_key_encryption_key) = prepare_login(device_pw, &server_output).unwrap();

    let server_output = simulate_server_done_login(input);

    let new_device_data = done_login(&master_key_encryption_key, &server_output).unwrap();

    match (&user.private_key.key, &new_device_data.private_key.key) {
        (SecretKey::Ecies(k1), SecretKey::Ecies(k2)) => {
            assert_ne!(*k1, *k2);
        },
    }
}

#[test]
fn login_recovers_key_pairs_that_belong_together() {
    let out = register("admin", "abc*èéöäüê").unwrap();
    assert_eq!(out.user_identifier, "admin");
    assert_eq!(out.derived.derived_alg, "ARGON-2-SHA256");
    assert_eq!(out.derived.keypair_encrypt_alg, "ECIES-ed25519");
    assert_eq!(out.derived.keypair_sign_alg, "ED25519");
    assert_eq!(out.master_key.master_key_alg, "AES-GCM-256");

    let server_output = simulate_server_prepare_login(&out.derived);
    let (auth_key, master_key_encryption_key) =
        prepare_login("abc*èéöäüê", &server_output).unwrap();

    // what authenticates to the server hashes to what the server stores
    let auth_key = Base64::decode_vec(&auth_key.auth_key).unwrap();
    let hashed = <sha2::Sha256 as sha2::Digest>::digest(&auth_key);
    assert_eq!(
        Base64::decode_vec(&out.derived.hashed_authentication_key).unwrap(),
        hashed[..16].to_vec()
    );

    let keys = done_login(&master_key_encryption_key, &simulate_server_done_login(out)).unwrap();
    assert_eq!(keys.private_key.key_id, "abc");
    assert_eq!(keys.public_key.key_id, "abc");
    assert_eq!(keys.sign_key.key_id, "dfg");
    assert_eq!(keys.verify_key.key_id, "dfg");
    assert_eq!(keys.private_key.key.public_key(), keys.public_key.key);
    assert_eq!(keys.sign_key.key.verify_key(), keys.verify_key.key);
    assert_eq!(keys.exported_public_key.public_key_id, "abc");
    assert_eq!(keys.exported_verify_key.verify_key_id, "dfg");
}

#[test]
fn login_with_wrong_password_fails_to_decrypt() {
    let out = register("admin", "right").unwrap();

    let server_output = simulate_server_prepare_login(&out.derived);
    let (_, master_key_encryption_key) = prepare_login("wrong", &server_output).unwrap();

    assert_eq!(
        done_login(&master_key_encryption_key, &simulate_server_done_login(out)),
        Err(Error::DecryptionFailed)
    );
}

#[test]
fn prepare_login_reports_each_failure() {
    let output = PrepareLoginSaltServerOutput {
        salt_string: "no base64!".to_string(),
        derived_encryption_key_alg: "ARGON-2-SHA256".to_string(),
    };
    assert_eq!(prepare_login("pw", &output), Err(Error::DecodeSaltFailed));

    let output = PrepareLoginSaltServerOutput {
        salt_string: Base64::encode_string(&[7u8; 32]),
        derived_encryption_key_alg: "SCRYPT".to_string(),
    };
    assert_eq!(prepare_login("pw", &output), Err(Error::AlgNotFound));

    // Argon2 refuses a salt of less than eight bytes
    let output = PrepareLoginSaltServerOutput {
        salt_string: Base64::encode_string(&[7u8; 4]),
        derived_encryption_key_alg: "ARGON-2-SHA256".to_string(),
    };
    assert_eq!(prepare_login("pw", &output), Err(Error::PwHashFailed));
}

#[test]
fn prepare_login_is_a_function_of_password_and_salt() {
    let output = PrepareLoginSaltServerOutput {
        salt_string: Base64::encode_string(&[7u8; 32]),
        derived_encryption_key_alg: "ARGON-2-SHA256".to_string(),
    };

    let first = prepare_login("pw", &output).unwrap();
    let second = prepare_login("pw", &output).unwrap();
    let other = prepare_login("pw2", &output).unwrap();

    assert_eq!(first, second);
    assert_ne!(first.0.auth_key, other.0.auth_key);
    assert_ne!(first.1, other.1);
}

#[test]
fn done_login_reports_each_failure() {
    let out = register("admin", "pw").unwrap();
    let server_output = simulate_server_prepare_login(&out.derived);
    let (_, key) = prepare_login("pw", &server_output).unwrap();
    let good = simulate_server_done_login(out);

    let mut output = good.clone();
    output.encrypted_master_key = "no base64!".to_string();
    assert_eq!(done_login(&key, &output), Err(Error::DerivedKeyWrongFormat));

    let mut output = good.clone();
    output.encrypted_private_key = "no base64!".to_string();
    assert_eq!(done_login(&key, &output), Err(Error::DerivedKeyWrongFormat));

    let mut output = good.clone();
    output.encrypted_sign_key = "no base64!".to_string();
    assert_eq!(done_login(&key, &output), Err(Error::DerivedKeyWrongFormat));

    let mut output = good.clone();
    output.keypair_encrypt_alg = "RSA".to_string();
    assert_eq!(done_login(&key, &output), Err(Error::AlgNotFound));

    let mut output = good.clone();
    output.keypair_sign_alg = "RSA".to_string();
    assert_eq!(done_login(&key, &output), Err(Error::AlgNotFound));

    let mut output = good.clone();
    output.public_key_string = "no pem".to_string();
    assert_eq!(done_login(&key, &output), Err(Error::ImportingKeyFromPemFailed));

    let mut output = good.clone();
    output.verify_key_string = "no pem".to_string();
    assert_eq!(done_login(&key, &output), Err(Error::ImportingKeyFromPemFailed));

    assert!(done_login(&key, &good).is_ok());
}

#[test]
fn changed_password_opens_the_same_master_key() {
    let out = register("admin", "old").unwrap();
    let old_salt = simulate_server_prepare_login(&out.derived);

    let changed = change_password(
        "old",
        "new",
        old_salt.salt_string.as_str(),
        out.master_key.encrypted_master_key.as_str(),
        out.derived.derived_alg.as_str(),
    )
    .unwrap();

    // what authenticates the old password is what a login with it sends
    let (old_auth_key, _) = prepare_login("old", &old_salt).unwrap();
    assert_eq!(changed.old_auth_key, old_auth_key.auth_key);
    assert_eq!(changed.new_derived_alg, "ARGON-2-SHA256");
    assert_eq!(changed.new_encrypted_master_key_alg, "AES-GCM-256");

    // the server stores the new values; a login with the new password reaches the keys
    let mut stored = out.clone();
    stored.derived.client_random_value = changed.new_client_random_value;
    stored.derived.hashed_authentication_key = changed.new_hashed_authentication_key;
    stored.master_key.encrypted_master_key = changed.new_encrypted_master_key;

    let new_salt = simulate_server_prepare_login(&stored.derived);
    let (_, new_key) = prepare_login("new", &new_salt).unwrap();
    let new_keys = done_login(&new_key, &simulate_server_done_login(stored)).unwrap();

    let (_, old_key) = prepare_login("old", &old_salt).unwrap();
    let old_keys = done_login(&old_key, &simulate_server_done_login(out)).unwrap();

    assert_eq!(new_keys, old_keys);
}

#[test]
fn change_password_reports_each_failure() {
    let out = register("admin", "old").unwrap();
    let salt = simulate_server_prepare_login(&out.derived);
    let master_key = out.master_key.encrypted_master_key.as_str();
    let alg = out.derived.derived_alg.as_str();

    assert_eq!(
        change_password("old", "new", "no base64!", master_key, alg),
        Err(Error::DecodeSaltFailed)
    );
    assert_eq!(
        change_password("old", "new", salt.salt_string.as_str(), master_key, "SCRYPT"),
        Err(Error::AlgNotFound)
    );
    assert_eq!(
        change_password("old", "new", salt.salt_string.as_str(), "no base64!", alg),
        Err(Error::DerivedKeyWrongFormat)
    );
    assert_eq!(
        change_password("wrong", "new", salt.salt_string.as_str(), master_key, alg),
        Err(Error::DecryptionFailed)
    );
}

#[test]
fn reset_password_wraps_the_given_keys() {
    let out = register("admin", "lost").unwrap();
    let salt = simulate_server_prepare_login(&out.derived);
    let (_, key) = prepare_login("lost", &salt).unwrap();
    let keys = done_login(&key, &simulate_server_done_login(out.clone())).unwrap();

    let reset = reset_password("fresh", &keys.private_key, &keys.sign_key).unwrap();
    assert_eq!(reset.derived_alg, "ARGON-2-SHA256");

    // the server stores the new values; a login with the new password reaches the keys
    let mut stored = out;
    stored.derived.client_random_value = reset.client_random_value;
    stored.derived.hashed_authentication_key = reset.hashed_authentication_key;
    stored.derived.encrypted_private_key = reset.encrypted_private_key;
    stored.derived.encrypted_sign_key = reset.encrypted_sign_key;
    stored.master_key = reset.master_key;

    let new_salt = simulate_server_prepare_login(&stored.derived);
    let (_, new_key) = prepare_login("fresh", &new_salt).unwrap();
    let new_keys = done_login(&new_key, &simulate_server_done_login(stored)).unwrap();

    assert_eq!(new_keys, keys);
}

#[test]
fn master_key_format_round_trips_and_rejects_malformed_text() {
    let out = register("admin", "pw").unwrap();
    let salt = simulate_server_prepare_login(&out.derived);
    let (_, key) = prepare_login("pw", &salt).unwrap();

    let exported = export_master_key_encryption_key(&key);
    assert_eq!(import_master_key_encryption_key(&exported), Ok(key));

    let text = exported.to_string();
    assert!(text.starts_with("{\"Argon2\":\""));
    assert_eq!(MasterKeyFormat::from_string(&text), Ok(exported));

    assert_eq!(
        import_master_key_encryption_key(&MasterKeyFormat::Argon2("no base64!".to_string())),
        Err(Error::KeyDecryptFailed)
    );
    assert_eq!(
        import_master_key_encryption_key(&MasterKeyFormat::Argon2(Base64::encode_string(
            &[1u8; 31]
        ))),
        Err(Error::KeyDecryptFailed)
    );
    assert_eq!(MasterKeyFormat::from_string("{\"Argon3\":\"x\"}"), Err(Error::JsonParseFailed));
    assert_eq!(MasterKeyFormat::from_string("{\"Argon2\":1}"), Err(Error::JsonParseFailed));
}

#[test]
fn requests_carry_their_input() {
    assert_eq!(
        prepare_check_user_identifier_available("admin").unwrap().user_identifier,
        "admin"
    );
    assert_eq!(prepare_login_start("admin").unwrap().user_identifier, "admin");
    assert_eq!(
        prepare_user_identifier_update("new".to_string()).unwrap().user_identifier,
        "new"
    );
    assert_eq!(prepare_refresh_jwt("token".to_string()).unwrap().refresh_token, "token");
}

#[test]
fn server_answers_are_read_or_refused() {
    let available = ServerOutput {
        status: true,
        err_msg: None,
        err_code: None,
        result: Some(UserIdentifierAvailableServerOutput {
            user_identifier: "admin".to_string(),
            available: true,
        }),
    };
    assert_eq!(done_check_user_identifier_available(available), Ok(true));

    let taken = ServerOutput {
        status: true,
        err_msg: None,
        err_code: None,
        result: Some(UserIdentifierAvailableServerOutput {
            user_identifier: "admin".to_string(),
            available: false,
        }),
    };
    assert_eq!(done_check_user_identifier_available(taken), Ok(false));

    let failed: ServerOutput<UserIdentifierAvailableServerOutput> = ServerOutput {
        status: false,
        err_msg: Some("User not found".to_string()),
        err_code: Some(100),
        result: None,
    };
    assert_eq!(
        done_check_user_identifier_available(failed),
        Err(SdkError::ServerErr(100, "User not found".to_string()))
    );

    let registered = ServerOutput {
        status: true,
        err_msg: None,
        err_code: None,
        result: Some(RegisterServerOutput {
            user_id: "u1".to_string(),
            device_id: "d1".to_string(),
            device_identifier: "admin".to_string(),
        }),
    };
    assert_eq!(done_register(registered), Ok("u1".to_string()));

    let empty: ServerOutput<RegisterServerOutput> =
        ServerOutput { status: true, err_msg: None, err_code: None, result: None };
    assert_eq!(done_register(empty), Err(SdkError::JsonParse));

    let refused: ServerOutput<UserDeviceRegisterOutput> = ServerOutput {
        status: false,
        err_msg: Some("no".to_string()),
        err_code: Some(7),
        result: None,
    };
    assert_eq!(
        done_register_device_start(refused.clone()),
        Err(SdkError::ServerErr(7, "no".to_string()))
    );
    assert_eq!(prepare_register_device(refused), Err(SdkError::ServerErr(7, "no".to_string())));
}

#[test]
fn update_user_keys_opens_every_key_set_in_order() {
    let first = register("admin", "pw").unwrap();
    let second = register("admin", "pw").unwrap();

    let mut first_done = simulate_server_done_login(first.clone());
    first_done.keypair_encrypt_id = "first".to_string();
    let mut second_done = simulate_server_done_login(second.clone());
    second_done.keypair_encrypt_id = "second".to_string();

    let output = MultipleLoginServerOutput {
        logins: vec![
            simulate_server_prepare_login(&first.derived),
            simulate_server_prepare_login(&second.derived),
        ],
        done_logins: vec![first_done.clone(), second_done.clone()],
    };

    let keys = prepare_update_user_keys("pw", &output).unwrap();
    assert_eq!(keys.len(), 2);
    assert_eq!(keys[0].private_key.key_id, "first");
    assert_eq!(keys[1].private_key.key_id, "second");
    assert_ne!(keys[0].private_key.key, keys[1].private_key.key);
    assert_eq!(keys[0].exported_public_key.public_key_pem, first_done.public_key_string);
    assert_eq!(keys[0].exported_public_key.public_key_id, "first");
    assert_eq!(keys[1].exported_public_key.public_key_pem, second_done.public_key_string);
    assert_eq!(keys[1].exported_public_key.public_key_alg, second_done.keypair_encrypt_alg);
    assert_eq!(keys[1].exported_verify_key.verify_key_pem, second_done.verify_key_string);
    assert_eq!(keys[1].exported_verify_key.verify_key_alg, second_done.keypair_sign_alg);
    assert_eq!(keys[1].exported_verify_key.verify_key_id, second_done.keypair_sign_id);

    assert_eq!(prepare_update_user_keys("wrong", &output), Err(Error::DecryptionFailed));

    let uneven = MultipleLoginServerOutput {
        logins: vec![simulate_server_prepare_login(&first.derived)],
        done_logins: vec![first_done, second_done],
    };
    assert_eq!(prepare_update_user_keys("pw", &uneven), Err(Error::LoginServerOutputWrong));

    let none = MultipleLoginServerOutput { logins: vec![], done_logins: vec![] };
    assert_eq!(prepare_update_user_keys("pw", &none), Ok(vec![]));
}

/// Random bytes that are not random: the bytes count up from `start`.
fn user_entropy(start: u8, length: usize) -> Vec<u8> {
    (0..length).map(|i| start.wrapping_add(i as u8)).collect()
}

#[test]
fn registration_is_a_function_of_its_random_bytes() {
    let entropy = user_entropy(1, 148);

    let first = register_with("admin", "pw", &entropy).unwrap();
    let second = register_with("admin", "pw", &entropy).unwrap();
    assert_eq!(first, second);
    assert_ne!(first, register_with("admin", "pw2", &entropy).unwrap());
    assert_ne!(first, register_with("admin", "pw", &user_entropy(2, 148)).unwrap());

    // the client's random value stands in the random bytes
    assert_eq!(first.derived.client_random_value, Base64::encode_string(&entropy[120..136]));

    // a login reaches the keys that stand in the random bytes
    let salt = simulate_server_prepare_login(&first.derived);
    let (_, key) = prepare_login("pw", &salt).unwrap();
    let keys = done_login(&key, &simulate_server_done_login(first)).unwrap();
    assert_eq!(keys.private_key.key.as_bytes(), &entropy[32..64]);
    assert_eq!(keys.sign_key.key.as_bytes(), &entropy[64..96]);

    for length in [0, 147, 149] {
        assert_eq!(
            register_with("admin", "pw", &user_entropy(1, length)),
            Err(Error::KeyCreationFailed)
        );
    }
}

#[test]
fn password_change_and_reset_are_functions_of_their_random_bytes() {
    let out = register_with("admin", "old", &user_entropy(1, 148)).unwrap();
    let salt = simulate_server_prepare_login(&out.derived);
    let master_key = out.master_key.encrypted_master_key.as_str();
    let alg = out.derived.derived_alg.as_str();
    let entropy = user_entropy(7, 28);

    let first =
        change_password_with("old", "new", salt.salt_string.as_str(), master_key, alg, &entropy);
    let second =
        change_password_with("old", "new", salt.salt_string.as_str(), master_key, alg, &entropy);
    assert_eq!(first, second);
    assert_eq!(
        first.unwrap().new_client_random_value,
        Base64::encode_string(&entropy[..16])
    );
    assert_eq!(
        change_password_with("old", "new", salt.salt_string.as_str(), master_key, alg, &[0u8; 27]),
        Err(Error::KeyCreationFailed)
    );
    // a failing login with the old password comes first
    assert_eq!(
        change_password_with("wrong", "new", salt.salt_string.as_str(), master_key, alg, &[0u8; 27]),
        Err(Error::DecryptionFailed)
    );

    let (_, key) = prepare_login("old", &salt).unwrap();
    let keys = done_login(&key, &simulate_server_done_login(out)).unwrap();
    let entropy = user_entropy(9, 84);
    let first = reset_password_with("fresh", &keys.private_key, &keys.sign_key, &entropy);
    let second = reset_password_with("fresh", &keys.private_key, &keys.sign_key, &entropy);
    assert_eq!(first, second);
    assert_eq!(first.unwrap().client_random_value, Base64::encode_string(&entropy[56..72]));
    assert_eq!(
        reset_password_with("fresh", &keys.private_key, &keys.sign_key, &[0u8; 83]),
        Err(Error::KeyCreationFailed)
    );
}
