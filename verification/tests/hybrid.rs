use sentc_crypto::alg::ed25519_dilithium_hybrid::{
    hybrid_result, hybrid_signature_from, hybrid_signed_data_from, safety_number,
    split_sig_and_data, Ed25519DilithiumHybridSig, Ed25519DilithiumHybridSignK,
    Ed25519DilithiumHybridVerifyKey, ED25519_DILITHIUM_HYBRID_REC_OUTPUT, SIG_LENGTH,
};
use sentc_crypto::alg::sym::generate_key;
use sentc_crypto::error::Error;

const ED25519_SIG_LENGTH: usize = 64;
const DILITHIUM_SIG_LENGTH: usize = 3309;

#[test]
fn test_generate_keypair() {
    let _ = Ed25519DilithiumHybridSignK::generate_key_pair().unwrap();
}

#[test]
fn test_sign_and_verify() {
    let (sk, vk) = Ed25519DilithiumHybridSignK::generate_key_pair().unwrap();

    let text = "Hello world üöäéèßê°";

    let data_with_sig = sk.sign(text.as_bytes()).unwrap();

    let (data, check) = vk.verify(&data_with_sig).unwrap();

    assert!(check);
    assert_eq!(data, text.as_bytes());
}

#[test]
fn test_wrong_verify() {
    let (_sk, vk) = Ed25519DilithiumHybridSignK::generate_key_pair().unwrap();
    let (sk, _vk) = Ed25519DilithiumHybridSignK::generate_key_pair().unwrap();

    let text = "Hello world üöäéèßê°";

    let data_with_sig = sk.sign(text.as_bytes()).unwrap();

    let (data, check) = vk.verify(&data_with_sig).unwrap();

    assert!(!check);
    assert_eq!(data, text.as_bytes());
}

#[test]
fn test_too_short_sig_bytes() {
    let (sk, vk) = Ed25519DilithiumHybridSignK::generate_key_pair().unwrap();
    let text = "Hello world üöäéèßê°";

    let data_with_sig = sk.sign(text.as_bytes()).unwrap();

    let data_with_sig = &data_with_sig[..31];

    let check_result = vk.verify(data_with_sig);

    assert!(matches!(check_result, Err(Error::DataToSignTooShort)));
}

#[test]
fn test_wrong_sig_bytes() {
    let (sk, vk) = Ed25519DilithiumHybridSignK::generate_key_pair().unwrap();
    let text = "Hello world üöäéèßê°";

    let data_with_sig = sk.sign(text.as_bytes()).unwrap();

    let data_with_sig = &data_with_sig[..DILITHIUM_SIG_LENGTH + ED25519_SIG_LENGTH + 2];

    let (_data, check) = vk.verify(data_with_sig).unwrap();

    assert!(!check);
}

#[test]
fn hybrid_signature_is_both_signatures_then_the_data() {
    let (sk, vk) = Ed25519DilithiumHybridSignK::generate_key_pair().unwrap();

    let sig = sk.sign_only(b"data").unwrap();
    let (x, k) = sig.get_raw_sig();
    assert_eq!(x.len(), ED25519_SIG_LENGTH);
    assert_eq!(k.len(), DILITHIUM_SIG_LENGTH);
    assert_eq!(SIG_LENGTH, ED25519_SIG_LENGTH + DILITHIUM_SIG_LENGTH);
    assert_eq!(vk.verify_only(&sig, b"data"), Ok(true));
    assert_eq!(vk.verify_only(&sig, b"date"), Ok(false));

    let mut expected = sig.to_bytes();
    assert_eq!(expected.len(), SIG_LENGTH);
    assert_eq!(&expected[..ED25519_SIG_LENGTH], x);
    assert_eq!(&expected[ED25519_SIG_LENGTH..], k);
    expected.extend_from_slice(b"data");
    assert_eq!(sk.sign(b"data").unwrap(), expected);

    let (split_sig, split_data) = split_sig_and_data(&expected).unwrap();
    assert_eq!(split_sig, sig.to_bytes());
    assert_eq!(split_data, b"data");
    assert_eq!(split_sig_and_data(&expected[..SIG_LENGTH]), Err(Error::DataToSignTooShort));
}

#[test]
fn hybrid_verify_needs_both_signatures() {
    let (sk, vk) = Ed25519DilithiumHybridSignK::generate_key_pair().unwrap();
    let (other_sk, _) = Ed25519DilithiumHybridSignK::generate_key_pair().unwrap();

    let sig = sk.sign_only(b"data").unwrap();
    let other = other_sk.sign_only(b"data").unwrap();
    let (x, k) = sig.get_raw_sig();
    let (other_x, other_k) = other.get_raw_sig();

    let wrong_ed25519 = Ed25519DilithiumHybridSig::from_bytes_owned(other_x.to_vec(), k.to_vec());
    let wrong_dilithium = Ed25519DilithiumHybridSig::from_bytes_owned(x.to_vec(), other_k.to_vec());

    assert_eq!(vk.verify_only(&wrong_ed25519, b"data"), Ok(false));
    assert_eq!(vk.verify_only(&wrong_dilithium, b"data"), Ok(false));
    assert_eq!(vk.verify_only(&sig, b"data"), Ok(true));
}

#[test]
fn hybrid_verify_detects_flipped_data_bytes() {
    let (sk, vk) = Ed25519DilithiumHybridSignK::generate_key_pair().unwrap();
    let data_with_sig = sk.sign(b"some data").unwrap();

    for i in SIG_LENGTH..data_with_sig.len() {
        let mut tampered = data_with_sig.clone();
        tampered[i] ^= 0x01;
        let (data, check) = vk.verify(&tampered).unwrap();
        assert!(!check);
        assert_eq!(data, &tampered[SIG_LENGTH..]);
    }
}

#[test]
fn hybrid_signature_keeps_its_halves() {
    let sig = Ed25519DilithiumHybridSig::from_bytes_owned(vec![1, 2], vec![3, 4, 5]);

    assert_eq!(sig.get_raw_sig(), (&[1u8, 2][..], &[3u8, 4, 5][..]));
    assert_eq!(sig.to_bytes(), vec![1, 2, 3, 4, 5]);
    assert_eq!(sig.get_alg_str(), "ED25519_DILITHIUM_REC_3");
    assert_eq!(ED25519_DILITHIUM_HYBRID_REC_OUTPUT, "ED25519_DILITHIUM_REC_3");
}

#[test]
fn hybrid_keys_check_their_lengths() {
    let (sk, vk) = Ed25519DilithiumHybridSignK::generate_key_pair().unwrap();
    let (sign_x, sign_k) = sk.get_raw_key();
    let (verify_x, verify_k) = vk.get_raw_key();
    assert_eq!((sign_x.len(), sign_k.len()), (32, 4032));
    assert_eq!((verify_x.len(), verify_k.len()), (32, 1952));

    assert_eq!(
        Ed25519DilithiumHybridSignK::from_bytes_owned(sign_x.to_vec(), sign_k.to_vec()),
        Ok(sk.clone())
    );
    assert_eq!(
        Ed25519DilithiumHybridVerifyKey::from_bytes_owned(verify_x.to_vec(), verify_k.to_vec()),
        Ok(vk.clone())
    );
    assert_eq!(
        Ed25519DilithiumHybridSignK::from_bytes_owned(vec![0; 31], sign_k.to_vec()),
        Err(Error::SignKeyCreateFailed)
    );
    assert_eq!(
        Ed25519DilithiumHybridSignK::from_bytes_owned(sign_x.to_vec(), vec![0; 4031]),
        Err(Error::SignKeyCreateFailed)
    );
    assert_eq!(
        Ed25519DilithiumHybridVerifyKey::from_bytes_owned(vec![0; 33], verify_k.to_vec()),
        Err(Error::InitVerifyFailed)
    );
    assert_eq!(
        Ed25519DilithiumHybridVerifyKey::from_bytes_owned(verify_x.to_vec(), vec![0; 1953]),
        Err(Error::InitVerifyFailed)
    );
    assert_eq!(sk.get_alg_str(), "ED25519_DILITHIUM_REC_3");
    assert_eq!(vk.get_alg_str(), "ED25519_DILITHIUM_REC_3");
}

#[test]
fn hybrid_sign_key_wraps_both_halves() {
    let master = generate_key().unwrap();
    let (sk, _) = Ed25519DilithiumHybridSignK::generate_key_pair().unwrap();
    let (x, k) = sk.get_raw_key();

    let wrapped = sk.encrypt_by_master_key(&master).unwrap();
    let unwrapped = master.decrypt(&wrapped).unwrap();

    assert_eq!(&unwrapped[..32], x);
    assert_eq!(&unwrapped[32..], k);
}

#[test]
fn hybrid_signature_halves_are_what_the_schemes_say() {
    let (sk, vk) = Ed25519DilithiumHybridSignK::generate_key_pair().unwrap();
    let (sign_x, _) = sk.get_raw_key();
    let (verify_x, _) = vk.get_raw_key();

    let sig = sk.sign_only(b"data").unwrap();
    let (x, k) = sig.get_raw_sig();

    // the first half is the Ed25519 signature of the data, which has one value only
    let classical = sentc_crypto::alg::sign::SignKey::from_bytes(sign_x, "ED25519").unwrap();
    assert_eq!(x, classical.sign_only(b"data"));
    assert_eq!(verify_x, classical.verify_key().as_bytes());

    // signing is repeatable, and the second half covers the first
    let again = sk.sign_only(b"data").unwrap();
    assert_eq!(sig, again);
    assert_ne!(k, sk.sign_only(b"date").unwrap().get_raw_sig().1);
}

#[test]
fn test_safety_number() {
    let (_sk, vk) = Ed25519DilithiumHybridSignK::generate_key_pair().unwrap();

    let number = safety_number(&vk, "123", None, None);

    assert_eq!(number.len(), 32);
}

#[test]
fn test_combined_safety_number() {
    let (_, vk) = Ed25519DilithiumHybridSignK::generate_key_pair().unwrap();
    let (_, vk1) = Ed25519DilithiumHybridSignK::generate_key_pair().unwrap();

    let number = safety_number(&vk, "123", Some(&vk1), Some("321"));

    assert_eq!(number.len(), 32);

    // test the other way around

    let number_2 = safety_number(&vk1, "321", Some(&vk), Some("123"));

    assert_eq!(number_2.len(), 32);

    assert_ne!(number, number_2);
}

#[test]
fn safety_number_is_the_digest_of_keys_and_identifiers() {
    let (_, vk) = Ed25519DilithiumHybridSignK::generate_key_pair().unwrap();
    let (_, vk1) = Ed25519DilithiumHybridSignK::generate_key_pair().unwrap();
    let (x, k) = vk.get_raw_key();
    let (x1, k1) = vk1.get_raw_key();

    let mut input = x.to_vec();
    input.extend_from_slice(k);
    input.extend_from_slice(b"123");
    let single = <sha2::Sha256 as sha2::Digest>::digest(&input);
    assert_eq!(safety_number(&vk, "123", None, None), single.to_vec());
    // a second user counts only with both its key and its identifier
    assert_eq!(safety_number(&vk, "123", Some(&vk1), None), single.to_vec());
    assert_eq!(safety_number(&vk, "123", None, Some("321")), single.to_vec());

    input.extend_from_slice(x1);
    input.extend_from_slice(k1);
    input.extend_from_slice(b"321");
    let combined = <sha2::Sha256 as sha2::Digest>::digest(&input);
    assert_eq!(safety_number(&vk, "123", Some(&vk1), Some("321")), combined.to_vec());
}

#[test]
fn hybrid_result_follows_both_verdicts() {
    assert_eq!(hybrid_result(None, None), Err(Error::InitVerifyFailed));
    assert_eq!(hybrid_result(None, Some(true)), Err(Error::InitVerifyFailed));
    assert_eq!(hybrid_result(None, Some(false)), Err(Error::InitVerifyFailed));
    assert_eq!(hybrid_result(Some(false), None), Ok(false));
    assert_eq!(hybrid_result(Some(false), Some(true)), Ok(false));
    assert_eq!(hybrid_result(Some(false), Some(false)), Ok(false));
    assert_eq!(hybrid_result(Some(true), None), Err(Error::InitVerifyFailed));
    assert_eq!(hybrid_result(Some(true), Some(false)), Ok(false));
    assert_eq!(hybrid_result(Some(true), Some(true)), Ok(true));
}

#[test]
fn hybrid_signature_is_made_of_the_classical_signature() {
    let (sk, vk) = Ed25519DilithiumHybridSignK::generate_key_pair().unwrap();
    let (_, sign_k) = sk.get_raw_key();
    let sig = sk.sign_only(b"data").unwrap();
    let (x, _) = sig.get_raw_sig();

    // with the signature that signing made, the result is the same signature
    assert_eq!(hybrid_signature_from(Some(x.to_vec()), sign_k, b"data"), Ok(sig.clone()));
    assert_eq!(vk.verify_only(&sig, b"data"), Ok(true));

    // no classical signature, or no key of the right length, is a failure
    assert_eq!(hybrid_signature_from(None, sign_k, b"data"), Err(Error::InitSignFailed));
    assert_eq!(
        hybrid_signature_from(Some(x.to_vec()), &sign_k[1..], b"data"),
        Err(Error::InitSignFailed)
    );

    // another first half is kept as it is, and covered by the second half
    let other = hybrid_signature_from(Some(vec![7u8; 64]), sign_k, b"data").unwrap();
    assert_eq!(other.get_raw_sig().0, &[7u8; 64]);
    assert_ne!(other.get_raw_sig().1, sig.get_raw_sig().1);
}

#[test]
fn hybrid_signed_data_checks_the_lengths() {
    let (sk, _) = Ed25519DilithiumHybridSignK::generate_key_pair().unwrap();
    let (_, sign_k) = sk.get_raw_key();
    let sig = sk.sign_only(b"data").unwrap();
    let (x, k) = sig.get_raw_sig();

    let mut expected = x.to_vec();
    expected.extend_from_slice(k);
    expected.extend_from_slice(b"data");
    assert_eq!(hybrid_signed_data_from(Some(x.to_vec()), sign_k, b"data"), Ok(expected.clone()));
    assert_eq!(sk.sign(b"data"), Ok(expected));

    assert_eq!(hybrid_signed_data_from(None, sign_k, b"data"), Err(Error::InitSignFailed));
    assert_eq!(
        hybrid_signed_data_from(Some(vec![7u8; 63]), sign_k, b"data"),
        Err(Error::InitSignFailed)
    );
    assert_eq!(
        hybrid_signed_data_from(Some(vec![7u8; 65]), sign_k, b"data"),
        Err(Error::InitSignFailed)
    );
}
