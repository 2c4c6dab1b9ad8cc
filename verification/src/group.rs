//! The lifecycle of group keys: creation, distribution to members, and
//! rotation.
//!
//! A group has one symmetric key per epoch and, with it, a key pair of its
//! own. The server stores both only in wrapped form: the group key wrapped
//! for the public key of each member, the private key of the group wrapped
//! under the group key. A member unwraps the group key with its own
//! private key and then holds all that the group holds.
//!
//! A rotation makes the key of the next epoch. Its initiator wraps the new
//! key once for itself and once under a key made for this rotation alone,
//! which in turn is wrapped under the previous group key. Every member
//! holds the previous group key and so reaches the new one with two
//! symmetric steps, whenever it next comes by; the server relays
//! ciphertext and never holds a key.
//!
//! Every function that makes keys comes in two forms. The form whose name
//! ends in `_with` takes the random bytes that it uses as an argument and
//! is a function of its arguments. The other form draws the bytes from the
//! operating system and hands them on.

use vstd::prelude::*;
use vstd::slice::*;
use vstd::string::*;

use crate::alg::asym::{
    ecies_decrypted, ecies_encrypted, is_key_pair, secret_key_unwrapped, PublicKey, SecretKey,
    ASYM_OVERHEAD, ECIES_OUTPUT,
};
use crate::alg::sym::{
    result_bytes, sym_decrypted, sym_encrypted, sym_key_unwrapped, sym_key_unwrapped_by_secret,
    SymmetricKey, AES_GCM_OUTPUT,
};
use crate::bytes::to_array;
use crate::encoding::{base64_bytes, base64_decode, base64_encode, base64_text};
use crate::error::Error;
use crate::primitives::{random_bytes, x25519_public, AES_KEY_LENGTH, X25519_LENGTH};
use crate::util::{
    export_raw_public_key_to_pem, import_public_key_from_pem_with_alg,
    import_public_key_from_user_data, key_to_pem, public_key_from_pem, KeyView,
    PrivateKeyFormatInt, PublicKeyFormatInt, SymKeyFormat, SymKeyFormatInt, UserPublicKeyData,
};

verus! {

/// What the creator of a group sends to the server.
#[derive(Debug, Clone, PartialEq, Eq)]
pub struct CreateData {
    pub encrypted_group_key: String,
    pub group_key_alg: String,
    pub encrypted_group_key_alg: String,
    pub encrypted_private_group_key: String,
    pub public_group_key: String,
    pub keypair_encrypt_alg: String,
    pub creator_public_key_id: String,
}

/// One epoch of a group's keys as the server hands it to one member.
#[derive(Debug, Clone, PartialEq, Eq)]
pub struct GroupKeyServerOutput {
    pub encrypted_group_key: String,
    pub group_key_alg: String,
    pub group_key_id: String,
    pub encrypted_private_group_key: String,
    pub public_group_key: String,
    pub keypair_encrypt_alg: String,
    pub key_pair_id: String,
    pub user_public_key_id: String,
}

/// A group as the server hands it to one member: its identifier and a
/// page of its keys.
#[derive(Debug, Clone, PartialEq, Eq)]
pub struct GroupServerData {
    pub group_id: String,
    pub keys: Vec<GroupKeyServerOutput>,
    pub keys_page: i32,
}

/// What the initiator of a rotation sends to the server.
#[derive(Debug, Clone, PartialEq, Eq)]
pub struct KeyRotationData {
    pub encrypted_group_key_by_user: String,
    pub group_key_alg: String,
    pub encrypted_group_key_alg: String,
    pub encrypted_private_group_key: String,
    pub public_group_key: String,
    pub keypair_encrypt_alg: String,
    pub encrypted_group_key_by_ephemeral: String,
    pub ephemeral_alg: String,
    pub encrypted_ephemeral_key: String,
    pub previous_group_key_id: String,
    pub invoker_public_key_id: String,
}

/// What the server relays of a rotation to each other member.
#[derive(Debug, Clone, PartialEq, Eq)]
pub struct KeyRotationInput {
    pub encrypted_ephemeral_key_by_group_key_and_public_key: String,
    pub encrypted_group_key_by_ephemeral: String,
    pub ephemeral_alg: String,
    pub previous_group_key_id: String,
}

/// What a member sends to the server once it has reached the new key.
#[derive(Debug, Clone, PartialEq, Eq)]
pub struct DoneKeyRotationData {
    pub encrypted_new_group_key: String,
    pub public_key_id: String,
    pub encrypted_alg: String,
}

/// One group key, wrapped for a new member.
#[derive(Debug, Clone, PartialEq, Eq)]
pub struct GroupKeysForNewMember {
    pub encrypted_group_key: String,
    pub alg: String,
    pub user_public_key_id: String,
    pub key_id: String,
    pub encrypted_alg: String,
}

/// The keys of every epoch, wrapped for a new member.
#[derive(Debug, Clone, PartialEq, Eq)]
pub struct GroupKeysForNewMemberServerInput(pub Vec<GroupKeysForNewMember>);

/// One epoch of a group's keys, unwrapped.
#[derive(Debug, Clone, PartialEq, Eq)]
pub struct GroupKeyData {
    pub private_group_key: PrivateKeyFormatInt,
    pub public_group_key: PublicKeyFormatInt,
    pub group_key: SymKeyFormatInt,
}

/// A group with its keys, unwrapped.
#[derive(Debug, Clone, PartialEq, Eq)]
pub struct GroupOutData {
    pub keys: Vec<GroupKeyData>,
    pub group_id: String,
}

/// The group keys that a member holds, in their exported format.
#[derive(Debug, Clone, PartialEq, Eq)]
pub struct GroupKeys(pub Vec<SymKeyFormat>);

/// What a `GroupKeyData` holds.
pub struct GroupKeyDataView {
    pub private_group_key: KeyView,
    pub public_group_key: KeyView,
    pub group_key: KeyView,
}

impl View for GroupKeyData {
    type V = GroupKeyDataView;

    open spec fn view(&self) -> GroupKeyDataView {
        GroupKeyDataView {
            private_group_key: self.private_group_key@,
            public_group_key: self.public_group_key@,
            group_key: self.group_key@,
        }
    }
}

/// The raw keys of one epoch.
pub struct EpochKeys {
    pub group_key: Seq<u8>,
    pub private_key: Seq<u8>,
    pub public_key: Seq<u8>,
}

/// The bytes of a wrapped key that arrived as Base64 text.
pub open spec fn wrapped_key(text: Seq<char>, failure: Error) -> Result<Seq<u8>, Error> {
    match base64_bytes(text) {
        Some(bytes) => Ok(bytes),
        None => Err(failure),
    }
}

/// The keys of one epoch that a member with the private key `secret`
/// unwraps from what the server stores.
///
/// Both wrapped keys are decoded first. The group key is unwrapped with
/// the member's private key, the private key of the group with the group
/// key; the public key of the group is read under the algorithm tag of
/// the key pair.
pub open spec fn epoch_keys_unwrapped(
    secret: Seq<u8>,
    encrypted_group_key: Seq<char>,
    group_key_alg: Seq<char>,
    encrypted_private_group_key: Seq<char>,
    public_group_key: Seq<char>,
    keypair_encrypt_alg: Seq<char>,
) -> Result<EpochKeys, Error> {
    match (
        wrapped_key(encrypted_group_key, Error::DerivedKeyWrongFormat),
        wrapped_key(encrypted_private_group_key, Error::DerivedKeyWrongFormat),
    ) {
        (Ok(wrapped_group_key), Ok(wrapped_private_key)) => match sym_key_unwrapped_by_secret(
            secret,
            wrapped_group_key,
            group_key_alg,
        ) {
            Err(e) => Err(e),
            Ok(group_key) => match secret_key_unwrapped(
                group_key,
                wrapped_private_key,
                keypair_encrypt_alg,
            ) {
                Err(e) => Err(e),
                Ok(private_key) => match public_key_from_pem(
                    public_group_key,
                    keypair_encrypt_alg,
                ) {
                    Err(e) => Err(e),
                    Ok(public_key) => Ok(EpochKeys { group_key, private_key, public_key }),
                },
            },
        },
        (Err(e), _) => Err(e),
        (_, Err(e)) => Err(e),
    }
}

/// Whether unwrapping gave the keys of an epoch whose key pair belongs
/// together.
pub open spec fn is_fresh_epoch(unwrapped: Result<EpochKeys, Error>) -> bool {
    match unwrapped {
        Ok(keys) => is_key_pair(keys.private_key, keys.public_key),
        Err(_) => false,
    }
}

/// Whether unwrapping gave the keys of an epoch with the group key
/// `group_key` and a key pair that belongs together.
pub open spec fn is_fresh_epoch_of(unwrapped: Result<EpochKeys, Error>, group_key: Seq<u8>)
    -> bool {
    match unwrapped {
        Ok(keys) => keys.group_key == group_key && is_key_pair(keys.private_key, keys.public_key),
        Err(_) => false,
    }
}

/// What `get_group_keys` gives: the keys of the epoch under the
/// identifiers and algorithm tags that the server reports.
pub open spec fn group_keys_decrypted(secret: Seq<u8>, output: GroupKeyServerOutput) -> Result<
    GroupKeyDataView,
    Error,
> {
    match epoch_keys_unwrapped(
        secret,
        output.encrypted_group_key@,
        output.group_key_alg@,
        output.encrypted_private_group_key@,
        output.public_group_key@,
        output.keypair_encrypt_alg@,
    ) {
        Err(e) => Err(e),
        Ok(keys) => Ok(
            GroupKeyDataView {
                private_group_key: KeyView {
                    alg: output.keypair_encrypt_alg@,
                    bytes: keys.private_key,
                    id: output.key_pair_id@,
                },
                public_group_key: KeyView {
                    alg: output.keypair_encrypt_alg@,
                    bytes: keys.public_key,
                    id: output.key_pair_id@,
                },
                group_key: KeyView {
                    alg: output.group_key_alg@,
                    bytes: keys.group_key,
                    id: output.group_key_id@,
                },
            },
        ),
    }
}

/// What a result that holds the keys of an epoch holds.
pub open spec fn result_group_keys(res: Result<GroupKeyData, Error>) -> Result<
    GroupKeyDataView,
    Error,
> {
    match res {
        Ok(keys) => Ok(keys@),
        Err(e) => Err(e),
    }
}

/// The group key that a new member with the private key `secret` unwraps
/// from an entry that was made for it.
pub open spec fn new_member_key(secret: Seq<u8>, entry: GroupKeysForNewMember) -> Result<
    KeyView,
    Error,
> {
    match wrapped_key(entry.encrypted_group_key@, Error::DerivedKeyWrongFormat) {
        Err(e) => Err(e),
        Ok(wrapped) => match sym_key_unwrapped_by_secret(secret, wrapped, entry.alg@) {
            Err(e) => Err(e),
            Ok(bytes) => Ok(KeyView { alg: entry.alg@, bytes, id: entry.key_id@ }),
        },
    }
}

/// The new group key that a member reaches from what the server relays of
/// a rotation: the key of the rotation is unwrapped under the previous
/// group key, and the new group key is decrypted under the key of the
/// rotation.
pub open spec fn rotated_group_key(
    previous_group_key: Seq<u8>,
    encrypted_ephemeral_key: Seq<char>,
    encrypted_group_key_by_ephemeral: Seq<char>,
    ephemeral_alg: Seq<char>,
) -> Result<Seq<u8>, Error> {
    match (
        wrapped_key(encrypted_ephemeral_key, Error::KeyRotationServerOutputWrong),
        wrapped_key(encrypted_group_key_by_ephemeral, Error::KeyRotationServerOutputWrong),
    ) {
        (Ok(wrapped_ephemeral), Ok(wrapped_group_key)) => match sym_key_unwrapped(
            previous_group_key,
            wrapped_ephemeral,
            ephemeral_alg,
        ) {
            Err(e) => Err(e),
            Ok(ephemeral) => sym_decrypted(ephemeral, Seq::<u8>::empty(), wrapped_group_key),
        },
        (Err(e), _) => Err(e),
        (_, Err(e)) => Err(e),
    }
}

/// The new group key that the initiator of a rotation, or a member that
/// has completed it, unwraps with its private key `secret`.
pub open spec fn rewrapped_group_key(secret: Seq<u8>, encrypted_group_key: Seq<char>) -> Result<
    Seq<u8>,
    Error,
> {
    match wrapped_key(encrypted_group_key, Error::DerivedKeyWrongFormat) {
        Err(e) => Err(e),
        Ok(wrapped) => ecies_decrypted(secret, wrapped),
    }
}

fn decode_wrapped_key(text: &str, failure: Error) -> (res: Result<Vec<u8>, Error>)
    ensures
        result_bytes(res) == wrapped_key(text@, failure),
{
    match base64_decode(text) {
        Some(bytes) => Ok(bytes),
        None => Err(failure),
    }
}

/// Number of random bytes that wrapping a key for a public key takes: a
/// secret key for the one message, then a nonce.
pub const WRAP_ENTROPY_LENGTH: usize = 44;

/// Number of random bytes that the keys of one epoch take: the group
/// key, the private key of the group, what wrapping the group key for its
/// first holder takes, and a nonce for wrapping the private key.
pub const EPOCH_ENTROPY_LENGTH: usize = 120;

/// Number of random bytes that a rotation takes: what the keys of the new
/// epoch take, the key of the rotation, a nonce for wrapping the new group
/// key under it, and a nonce for wrapping it under the previous group key.
pub const ROTATION_ENTROPY_LENGTH: usize = 176;

/// The key `key`, wrapped for the public key `public` with the random
/// bytes `entropy`.
pub open spec fn wrapped_for(public: Seq<u8>, entropy: Seq<u8>, key: Seq<u8>) -> Result<
    Seq<u8>,
    Error,
> {
    ecies_encrypted(
        public,
        entropy.subrange(0, X25519_LENGTH as int),
        entropy.subrange(X25519_LENGTH as int, WRAP_ENTROPY_LENGTH as int),
        key,
    )
}

/// The keys of a new epoch, raw and wrapped.
pub struct FreshEpoch {
    pub group_key: Seq<u8>,
    pub private_key: Seq<u8>,
    pub public_key: Seq<u8>,
    pub wrapped_group_key: Seq<u8>,
    pub wrapped_private_key: Seq<u8>,
    pub public_key_pem: Seq<char>,
}

/// The keys of a new epoch that the random bytes `entropy` give, for a
/// first holder with the public key `owner`.
///
/// The first bytes are the group key, the next the private key of the
/// group. The group key is wrapped for `owner`, the private key under the
/// group key, and the public key is written as PEM.
pub open spec fn fresh_epoch(owner: Seq<u8>, entropy: Seq<u8>) -> Result<FreshEpoch, Error> {
    let group_key = entropy.subrange(0, 32);
    let private_key = entropy.subrange(32, 64);
    let public_key = x25519_public(private_key);
    match wrapped_for(owner, entropy.subrange(64, 108), group_key) {
        Err(e) => Err(e),
        Ok(wrapped_group_key) => match sym_encrypted(
            group_key,
            entropy.subrange(108, 120),
            Seq::<u8>::empty(),
            private_key,
        ) {
            Err(e) => Err(e),
            Ok(wrapped_private_key) => match key_to_pem(public_key) {
                Err(e) => Err(e),
                Ok(public_key_pem) => Ok(
                    FreshEpoch {
                        group_key,
                        private_key,
                        public_key,
                        wrapped_group_key,
                        wrapped_private_key,
                        public_key_pem,
                    },
                ),
            },
        },
    }
}

/// What `prepare_create_with` makes of its random bytes: the keys of the
/// first epoch, where there are as many bytes as they take.
pub open spec fn created(creator: Seq<u8>, entropy: Seq<u8>) -> Result<FreshEpoch, Error> {
    if entropy.len() != EPOCH_ENTROPY_LENGTH {
        Err(Error::KeyCreationFailed)
    } else {
        fresh_epoch(creator, entropy)
    }
}

/// Whether `data` is what the creator `creator` sends for the keys
/// `epoch`.
pub open spec fn is_create_data(data: CreateData, creator: KeyView, epoch: FreshEpoch) -> bool {
    &&& data.encrypted_group_key@ == base64_text(epoch.wrapped_group_key)
    &&& data.group_key_alg@ == AES_GCM_OUTPUT@
    &&& data.encrypted_group_key_alg@ == creator.alg
    &&& data.encrypted_private_group_key@ == base64_text(epoch.wrapped_private_key)
    &&& data.public_group_key@ == epoch.public_key_pem
    &&& data.keypair_encrypt_alg@ == ECIES_OUTPUT@
    &&& data.creator_public_key_id@ == creator.id
}

/// Whether the holder of a private key that belongs to `owner` unwraps
/// the keys of an epoch from the five texts, with a key pair whose halves
/// belong together.
pub open spec fn opens_fresh_epoch(
    owner: Seq<u8>,
    encrypted_group_key: Seq<char>,
    group_key_alg: Seq<char>,
    encrypted_private_group_key: Seq<char>,
    public_group_key: Seq<char>,
    keypair_encrypt_alg: Seq<char>,
) -> bool {
    forall|secret: Seq<u8>|
        is_key_pair(secret, owner) ==> is_fresh_epoch(
            #[trigger] epoch_keys_unwrapped(
                secret,
                encrypted_group_key,
                group_key_alg,
                encrypted_private_group_key,
                public_group_key,
                keypair_encrypt_alg,
            ),
        )
}

/// Whether the holder of a private key that belongs to `owner` unwraps
/// the keys of an epoch from the five texts, with the group key
/// `group_key` and a key pair whose halves belong together.
pub open spec fn opens_fresh_epoch_of(
    owner: Seq<u8>,
    encrypted_group_key: Seq<char>,
    group_key_alg: Seq<char>,
    encrypted_private_group_key: Seq<char>,
    public_group_key: Seq<char>,
    keypair_encrypt_alg: Seq<char>,
    group_key: Seq<u8>,
) -> bool {
    forall|secret: Seq<u8>|
        is_key_pair(secret, owner) ==> is_fresh_epoch_of(
            #[trigger] epoch_keys_unwrapped(
                secret,
                encrypted_group_key,
                group_key_alg,
                encrypted_private_group_key,
                public_group_key,
                keypair_encrypt_alg,
            ),
            group_key,
        )
}

fn wrap_for(public: &PublicKey, entropy: &[u8], key: &[u8]) -> (res: Result<Vec<u8>, Error>)
    requires
        entropy@.len() == WRAP_ENTROPY_LENGTH,
    ensures
        result_bytes(res) == wrapped_for(public.bytes(), entropy@, key@),
        res matches Ok(wrapped) ==> wrapped@.len() == key@.len() + ASYM_OVERHEAD,
        res matches Ok(wrapped) ==> forall|secret: Seq<u8>|
            is_key_pair(secret, public.bytes()) ==> #[trigger] ecies_decrypted(secret, wrapped@)
                == Ok::<Seq<u8>, Error>(key@),
{
    let ephemeral = slice_subrange(entropy, 0, X25519_LENGTH);
    let nonce = slice_subrange(entropy, X25519_LENGTH, WRAP_ENTROPY_LENGTH);
    match to_array::<32>(ephemeral) {
        Some(ephemeral) => public.encrypt_with_ephemeral(&ephemeral, nonce, key),
        None => Err(Error::EncryptionFailed),
    }
}

/// The keys of a new epoch as they leave `make_epoch`.
struct Epoch {
    group_key: SymmetricKey,
    wrapped_group_key: Vec<u8>,
    wrapped_private_key: Vec<u8>,
    public_key_pem: String,
}

fn make_epoch(owner: &PublicKey, entropy: &[u8]) -> (res: Result<Epoch, Error>)
    requires
        entropy@.len() == EPOCH_ENTROPY_LENGTH,
    ensures
        match fresh_epoch(owner.bytes(), entropy@) {
            Ok(fresh) => res matches Ok(epoch) && epoch.group_key.bytes() == fresh.group_key
                && epoch.wrapped_group_key@ == fresh.wrapped_group_key
                && epoch.wrapped_private_key@ == fresh.wrapped_private_key
                && epoch.public_key_pem@ == fresh.public_key_pem,
            Err(e) => res == Err::<Epoch, Error>(e),
        },
        res matches Ok(epoch) ==> {
            &&& epoch.wrapped_group_key@.len() == AES_KEY_LENGTH + ASYM_OVERHEAD
            &&& epoch.wrapped_private_key@.len() * 4 <= usize::MAX
            &&& forall|secret: Seq<u8>|
                is_key_pair(secret, owner.bytes()) ==> #[trigger] sym_key_unwrapped_by_secret(
                    secret,
                    epoch.wrapped_group_key@,
                    AES_GCM_OUTPUT@,
                ) == Ok::<Seq<u8>, Error>(epoch.group_key.bytes())
            &&& fresh_epoch(owner.bytes(), entropy@) matches Ok(fresh)
            &&& secret_key_unwrapped(
                fresh.group_key,
                fresh.wrapped_private_key,
                ECIES_OUTPUT@,
            ) == Ok::<Seq<u8>, Error>(fresh.private_key)
            &&& public_key_from_pem(fresh.public_key_pem, ECIES_OUTPUT@) == Ok::<Seq<u8>, Error>(
                fresh.public_key,
            )
            &&& is_key_pair(fresh.private_key, fresh.public_key)
        },
{
    let group_key = match to_array::<32>(slice_subrange(entropy, 0, 32)) {
        Some(key) => SymmetricKey::Aes(key),
        None => { return Err(Error::KeyCreationFailed); },
    };
    let private_key = match to_array::<32>(slice_subrange(entropy, 32, 64)) {
        Some(key) => SecretKey::Ecies(key),
        None => { return Err(Error::KeyCreationFailed); },
    };
    let public_key = private_key.public_key();
    let wrapped_group_key = match wrap_for(
        owner,
        slice_subrange(entropy, 64, 108),
        group_key.as_bytes(),
    ) {
        Ok(wrapped) => wrapped,
        Err(e) => { return Err(e); },
    };
    let aad: [u8; 0] = [];
    assert(aad@ =~= Seq::<u8>::empty());
    let wrapped_private_key = match group_key.encrypt_with_nonce(
        slice_subrange(entropy, 108, 120),
        aad.as_slice(),
        private_key.as_bytes(),
    ) {
        Ok(wrapped) => wrapped,
        Err(e) => { return Err(e); },
    };
    let public_key_pem = match export_raw_public_key_to_pem(&public_key) {
        Ok(pem) => pem,
        Err(e) => { return Err(e); },
    };
    proof {
        assert forall|secret: Seq<u8>| is_key_pair(secret, owner.bytes()) implies (
        #[trigger] sym_key_unwrapped_by_secret(secret, wrapped_group_key@, AES_GCM_OUTPUT@))
            == Ok::<Seq<u8>, Error>(group_key.bytes()) by {
            assert(ecies_decrypted(secret, wrapped_group_key@) == Ok::<Seq<u8>, Error>(
                group_key.bytes(),
            ));
        }
    }
    Ok(Epoch { group_key, wrapped_group_key, wrapped_private_key, public_key_pem })
}

/// Makes the keys of a new group from the random bytes `entropy`, for the
/// creator with the public key `creators_public_key`.
///
/// The result is a function of the arguments. Fails with
/// `KeyCreationFailed` where `entropy` has not as many bytes as the keys
/// of an epoch take, with `EncryptionFailed` where a cipher refuses its
/// input, and with `ExportingPublicKeyFailed` where the public key of the
/// group cannot be written. The creator, with the private key that belongs
/// to its public key, unwraps from the result the keys of the first epoch,
/// among them a key pair whose halves belong together.
pub fn prepare_create_with(creators_public_key: &PublicKeyFormatInt, entropy: &[u8]) -> (res:
    Result<CreateData, Error>)
    ensures
        match created(creators_public_key.key.bytes(), entropy@) {
            Ok(epoch) => res matches Ok(data) && is_create_data(
                data,
                creators_public_key@,
                epoch,
            ),
            Err(e) => res == Err::<CreateData, Error>(e),
        },
        res matches Ok(data) ==> opens_fresh_epoch(
            creators_public_key.key.bytes(),
            data.encrypted_group_key@,
            data.group_key_alg@,
            data.encrypted_private_group_key@,
            data.public_group_key@,
            data.keypair_encrypt_alg@,
        ),
{
    if entropy.len() != EPOCH_ENTROPY_LENGTH {
        return Err(Error::KeyCreationFailed);
    }
    let epoch = match make_epoch(&creators_public_key.key, entropy) {
        Ok(epoch) => epoch,
        Err(e) => { return Err(e); },
    };
    Ok(
        CreateData {
            encrypted_group_key: base64_encode(epoch.wrapped_group_key.as_slice()),
            group_key_alg: String::from_str(AES_GCM_OUTPUT),
            encrypted_group_key_alg: String::from_str(creators_public_key.key.get_alg_str()),
            encrypted_private_group_key: base64_encode(epoch.wrapped_private_key.as_slice()),
            public_group_key: epoch.public_key_pem,
            keypair_encrypt_alg: String::from_str(ECIES_OUTPUT),
            creator_public_key_id: creators_public_key.key_id.clone(),
        },
    )
}

/// Makes the keys of a new group for the creator with the public key
/// `creators_public_key`.
///
/// Fails with `KeyCreationFailed` where the system gives no random
/// bytes, and as `prepare_create_with` does, which says what is made of
/// them. The creator, with the private key that belongs to its public key,
/// unwraps from the result the keys of the first epoch, among them a key
/// pair whose halves belong together.
pub fn prepare_create(creators_public_key: &PublicKeyFormatInt) -> (res: Result<CreateData, Error>)
    ensures
        res matches Ok(data) ==> {
            &&& data.creator_public_key_id@ == creators_public_key.key_id@
            &&& data.encrypted_group_key_alg@ == creators_public_key.key.alg()
            &&& opens_fresh_epoch(
                creators_public_key.key.bytes(),
                data.encrypted_group_key@,
                data.group_key_alg@,
                data.encrypted_private_group_key@,
                data.public_group_key@,
                data.keypair_encrypt_alg@,
            )
        },
        res matches Err(e) ==> e == Error::KeyCreationFailed || e == Error::EncryptionFailed || e
            == Error::ExportingPublicKeyFailed,
{
    match random_bytes(EPOCH_ENTROPY_LENGTH) {
        Some(entropy) => prepare_create_with(creators_public_key, entropy.as_slice()),
        None => Err(Error::KeyCreationFailed),
    }
}

/// Unwraps the keys of one epoch for a member with the private key
/// `private_key`.
///
/// Fails with `DerivedKeyWrongFormat` where a wrapped key is no Base64,
/// as decryption does where the member is not the one that the key was
/// wrapped for or the ciphertext is damaged, and with `AlgNotFound` where
/// an algorithm tag is unknown. The result is a function of the
/// arguments: two calls on the same input give the same keys.
pub fn get_group_keys(private_key: &PrivateKeyFormatInt, server_output: &GroupKeyServerOutput)
    -> (res: Result<GroupKeyData, Error>)
    ensures
        result_group_keys(res) == group_keys_decrypted(private_key.key.bytes(), *server_output),
{
    let wrapped_group_key = match decode_wrapped_key(
        server_output.encrypted_group_key.as_str(),
        Error::DerivedKeyWrongFormat,
    ) {
        Ok(wrapped) => wrapped,
        Err(e) => { return Err(e); },
    };
    let wrapped_private_key = match decode_wrapped_key(
        server_output.encrypted_private_group_key.as_str(),
        Error::DerivedKeyWrongFormat,
    ) {
        Ok(wrapped) => wrapped,
        Err(e) => { return Err(e); },
    };
    let group_key = match SymmetricKey::decrypt_key_by_master_key(
        &private_key.key,
        wrapped_group_key.as_slice(),
        server_output.group_key_alg.as_str(),
    ) {
        Ok(key) => key,
        Err(e) => { return Err(e); },
    };
    let private_group_key = match SecretKey::decrypt_by_master_key(
        &group_key,
        wrapped_private_key.as_slice(),
        server_output.keypair_encrypt_alg.as_str(),
    ) {
        Ok(key) => key,
        Err(e) => { return Err(e); },
    };
    let public_group_key = match import_public_key_from_pem_with_alg(
        server_output.public_group_key.as_str(),
        server_output.keypair_encrypt_alg.as_str(),
    ) {
        Ok(key) => key,
        Err(e) => { return Err(e); },
    };
    Ok(
        GroupKeyData {
            private_group_key: PrivateKeyFormatInt {
                key: private_group_key,
                key_id: server_output.key_pair_id.clone(),
            },
            public_group_key: PublicKeyFormatInt {
                key: public_group_key,
                key_id: server_output.key_pair_id.clone(),
            },
            group_key: SymKeyFormatInt {
                key: group_key,
                key_id: server_output.group_key_id.clone(),
            },
        },
    )
}

/// Unwraps every epoch of a page of group keys for a member with the
/// private key `private_key`.
///
/// Fails as `get_group_keys` does on the first epoch that fails. On
/// success the result holds the keys of every epoch of the page, in the
/// order of the page.
pub fn get_group_data(private_key: &PrivateKeyFormatInt, server_output: &GroupServerData) -> (res:
    Result<GroupOutData, Error>)
    ensures
        match res {
            Ok(data) => {
                &&& data.group_id@ == server_output.group_id@
                &&& data.keys@.len() == server_output.keys@.len()
                &&& forall|i: int|
                    0 <= i < data.keys@.len() ==> group_keys_decrypted(
                        private_key.key.bytes(),
                        #[trigger] server_output.keys@[i],
                    ) == Ok::<GroupKeyDataView, Error>(data.keys@[i]@)
            },
            Err(e) => exists|i: int|
                {
                    &&& 0 <= i < server_output.keys@.len()
                    &&& group_keys_decrypted(
                        private_key.key.bytes(),
                        #[trigger] server_output.keys@[i],
                    ) == Err::<GroupKeyDataView, Error>(e)
                    &&& forall|j: int|
                        0 <= j < i ==> group_keys_decrypted(
                            private_key.key.bytes(),
                            #[trigger] server_output.keys@[j],
                        ) is Ok
                },
        },
{
    let mut keys: Vec<GroupKeyData> = Vec::with_capacity(server_output.keys.len());
    let mut i: usize = 0;
    while i < server_output.keys.len()
        invariant
            i <= server_output.keys@.len(),
            keys@.len() == i,
            forall|j: int|
                0 <= j < i ==> group_keys_decrypted(
                    private_key.key.bytes(),
                    #[trigger] server_output.keys@[j],
                ) == Ok::<GroupKeyDataView, Error>(keys@[j]@),
        decreases server_output.keys@.len() - i,
    {
        match get_group_keys(private_key, &server_output.keys[i]) {
            Ok(key) => {
                keys.push(key);
            },
            Err(e) => {
                return Err(e);
            },
        }
        i += 1;
    }
    Ok(GroupOutData { keys, group_id: server_output.group_id.clone() })
}

/// Whether `entry` is the group key `group_key`, wrapped for the owner of
/// the public key `requester`: the owner unwraps it to the same raw
/// material under the same identifier.
pub open spec fn is_key_for_new_member(
    entry: GroupKeysForNewMember,
    group_key: KeyView,
    requester: KeyView,
) -> bool {
    &&& entry.key_id@ == group_key.id
    &&& entry.alg@ == group_key.alg
    &&& entry.user_public_key_id@ == requester.id
    &&& entry.encrypted_alg@ == requester.alg
    &&& forall|secret: Seq<u8>|
        is_key_pair(secret, requester.bytes) ==> #[trigger] new_member_key(secret, entry) == Ok::<
            KeyView,
            Error,
        >(group_key)
}

/// The random bytes for the key at the place `i` among the keys that are
/// wrapped for a new member.
pub open spec fn entropy_for_key(entropy: Seq<u8>, i: int) -> Seq<u8> {
    entropy.subrange(i * WRAP_ENTROPY_LENGTH, (i + 1) * WRAP_ENTROPY_LENGTH)
}

proof fn lemma_wrap_offsets(i: int)
    ensures
        i * WRAP_ENTROPY_LENGTH == i * 44,
        (i + 1) * WRAP_ENTROPY_LENGTH == i * 44 + 44,
{
    assert(i * WRAP_ENTROPY_LENGTH == i * 44) by (nonlinear_arith)
        requires
            WRAP_ENTROPY_LENGTH == 44,
    ;
    assert((i + 1) * WRAP_ENTROPY_LENGTH == i * 44 + 44) by (nonlinear_arith)
        requires
            WRAP_ENTROPY_LENGTH == 44,
    ;
}

/// Whether `entry` is what `prepare_group_keys_for_new_member_with` makes
/// of the group key `group_key` for the public key `requester` with the
/// random bytes `entropy`.
pub open spec fn is_entry_for_new_member(
    entry: GroupKeysForNewMember,
    group_key: KeyView,
    requester: KeyView,
    entropy: Seq<u8>,
) -> bool {
    &&& wrapped_for(requester.bytes, entropy, group_key.bytes) matches Ok(wrapped)
    &&& entry.encrypted_group_key@ == base64_text(wrapped)
    &&& entry.key_id@ == group_key.id
    &&& entry.alg@ == group_key.alg
    &&& entry.user_public_key_id@ == requester.id
    &&& entry.encrypted_alg@ == requester.alg
}

/// Whether wrapping the group key `group_key` for the public key
/// `requester` with the random bytes `entropy` fails with `e`.
pub open spec fn wrapping_fails(
    requester: KeyView,
    group_key: KeyView,
    entropy: Seq<u8>,
    e: Error,
) -> bool {
    wrapped_for(requester.bytes, entropy, group_key.bytes) == Err::<Seq<u8>, Error>(e)
}

/// Whether wrapping one of the group keys for the public key `requester`
/// with its part of the random bytes `entropy` fails with `e`.
pub open spec fn some_wrapping_fails(
    requester: KeyView,
    group_keys: Seq<&SymKeyFormatInt>,
    entropy: Seq<u8>,
    e: Error,
) -> bool {
    exists|i: int|
        0 <= i < group_keys.len() && #[trigger] wrapping_fails(
            requester,
            group_keys[i]@,
            entropy_for_key(entropy, i),
            e,
        )
}

/// Whether `res` is what `prepare_group_keys_for_new_member_with` gives
/// for the public key that reading gave, the group keys and the random
/// bytes.
///
/// A public key that cannot be read fails with its failure, random bytes
/// of the wrong number with `KeyCreationFailed`. Else the result holds one
/// entry per key, in the order of the keys, or is the failure of a key
/// that cannot be wrapped.
pub open spec fn new_member_entries(
    requester: Result<KeyView, Error>,
    group_keys: Seq<&SymKeyFormatInt>,
    entropy: Seq<u8>,
    res: Result<GroupKeysForNewMemberServerInput, Error>,
) -> bool {
    match requester {
        Err(e) => res == Err::<GroupKeysForNewMemberServerInput, Error>(e),
        Ok(public_key) => if entropy.len() != new_member_entropy_length(group_keys.len()) {
            res == Err::<GroupKeysForNewMemberServerInput, Error>(Error::KeyCreationFailed)
        } else {
            match res {
                Ok(input) => input.0@.len() == group_keys.len() && forall|i: int|
                    0 <= i < group_keys.len() ==> is_entry_for_new_member(
                        #[trigger] input.0@[i],
                        group_keys[i]@,
                        public_key,
                        entropy_for_key(entropy, i),
                    ) && is_key_for_new_member(input.0@[i], group_keys[i]@, public_key),
                Err(failure) => some_wrapping_fails(public_key, group_keys, entropy, failure),
            }
        },
    }
}

/// The number of random bytes that wrapping `count` keys for a new member
/// takes.
pub open spec fn new_member_entropy_length(count: nat) -> int {
    count * WRAP_ENTROPY_LENGTH
}

/// Wraps the group key of every epoch that a member holds for a new
/// member with the public key `requester_public_key_data`, with the random
/// bytes `entropy`: 44 for each key, in the order of `group_keys`.
///
/// The result is a function of the arguments. Fails where the public key
/// cannot be read, with `KeyCreationFailed` where `entropy` has not as
/// many bytes as the keys take, and with the failure of the first key
/// that cannot be wrapped. On success the result holds one entry per key,
/// in the order of `group_keys`, and the new member unwraps each to the
/// key it was made of.
pub fn prepare_group_keys_for_new_member_with(
    requester_public_key_data: &UserPublicKeyData,
    group_keys: &[&SymKeyFormatInt],
    entropy: &[u8],
) -> (res: Result<GroupKeysForNewMemberServerInput, Error>)
    ensures
        new_member_entries(
            requester_public_key_data.imported(),
            group_keys@,
            entropy@,
            res,
        ),
{
    let public_key = match import_public_key_from_user_data(requester_public_key_data) {
        Ok(key) => key,
        Err(e) => { return Err(e); },
    };
    proof {
        lemma_wrap_offsets(group_keys@.len() as int);
    }
    let length = entropy.len();
    if group_keys.len() > usize::MAX / WRAP_ENTROPY_LENGTH {
        assert(group_keys@.len() * 44 > usize::MAX);
        return Err(Error::KeyCreationFailed);
    }
    if length != group_keys.len() * WRAP_ENTROPY_LENGTH {
        return Err(Error::KeyCreationFailed);
    }
    let mut entries: Vec<GroupKeysForNewMember> = Vec::with_capacity(group_keys.len());
    let mut i: usize = 0;
    let mut offset: usize = 0;
    while i < group_keys.len()
        invariant
            i <= group_keys@.len(),
            entries@.len() == i,
            offset == i * 44,
            entropy@.len() == group_keys@.len() * 44,
            entropy@.len() <= usize::MAX,
            requester_public_key_data.imported() == Ok::<KeyView, Error>(public_key@),
            forall|j: int|
                0 <= j < i ==> is_entry_for_new_member(
                    #[trigger] entries@[j],
                    group_keys@[j]@,
                    public_key@,
                    entropy_for_key(entropy@, j),
                ) && is_key_for_new_member(entries@[j], group_keys@[j]@, public_key@),
        decreases group_keys@.len() - i,
    {
        let group_key = group_keys[i];
        proof {
            lemma_wrap_offsets(i as int);
            lemma_wrap_offsets(group_keys@.len() as int);
        }
        let part = slice_subrange(entropy, offset, offset + WRAP_ENTROPY_LENGTH);
        assert(part@ == entropy_for_key(entropy@, i as int));
        let wrapped = match wrap_for(&public_key.key, part, group_key.key.as_bytes()) {
            Ok(wrapped) => wrapped,
            Err(e) => {
                assert(wrapping_fails(
                    public_key@,
                    group_keys@[i as int]@,
                    entropy_for_key(entropy@, i as int),
                    e,
                ));
                assert(some_wrapping_fails(public_key@, group_keys@, entropy@, e));
                return Err(e);
            },
        };
        let entry = GroupKeysForNewMember {
            encrypted_group_key: base64_encode(wrapped.as_slice()),
            alg: String::from_str(group_key.key.get_alg_str()),
            user_public_key_id: public_key.key_id.clone(),
            key_id: group_key.key_id.clone(),
            encrypted_alg: String::from_str(public_key.key.get_alg_str()),
        };
        proof {
            assert forall|secret: Seq<u8>|
                is_key_pair(secret, public_key@.bytes) implies #[trigger] new_member_key(
                secret,
                entry,
            ) == Ok::<KeyView, Error>(group_key@) by {
                assert(ecies_decrypted(secret, wrapped@) == Ok::<Seq<u8>, Error>(
                    group_key.key.bytes(),
                ));
            }
        }
        entries.push(entry);
        i += 1;
        offset += WRAP_ENTROPY_LENGTH;
    }
    Ok(GroupKeysForNewMemberServerInput(entries))
}

/// Wraps the group key of every epoch that a member holds for a new
/// member with the public key `requester_public_key_data`.
///
/// Fails where the public key cannot be read, with `KeyCreationFailed`
/// where the system gives no random bytes, and as
/// `prepare_group_keys_for_new_member_with` does, which says what is made
/// of them. On success the result holds one entry per key, in the order of
/// `group_keys`, and the new member unwraps each to the key it was made
/// of.
pub fn prepare_group_keys_for_new_member(
    requester_public_key_data: &UserPublicKeyData,
    group_keys: &[&SymKeyFormatInt],
) -> (res: Result<GroupKeysForNewMemberServerInput, Error>)
    ensures
        res matches Ok(input) ==> requester_public_key_data.imported() matches Ok(requester)
            && input.0@.len() == group_keys@.len() && forall|i: int|
            0 <= i < group_keys@.len() ==> is_key_for_new_member(
                #[trigger] input.0@[i],
                group_keys@[i]@,
                requester,
            ),
        requester_public_key_data.imported() matches Err(e) ==> res == Err::<
            GroupKeysForNewMemberServerInput,
            Error,
        >(e),
        res matches Err(e) ==> requester_public_key_data.imported() == Err::<KeyView, Error>(e)
            || e == Error::KeyCreationFailed || e == Error::EncryptionFailed,
{
    match import_public_key_from_user_data(requester_public_key_data) {
        Ok(_) => {},
        Err(e) => { return Err(e); },
    }
    proof {
        lemma_wrap_offsets(group_keys@.len() as int);
    }
    if group_keys.len() > usize::MAX / WRAP_ENTROPY_LENGTH {
        return Err(Error::KeyCreationFailed);
    }
    match random_bytes(group_keys.len() * WRAP_ENTROPY_LENGTH) {
        Some(entropy) => prepare_group_keys_for_new_member_with(
            requester_public_key_data,
            group_keys,
            entropy.as_slice(),
        ),
        None => Err(Error::KeyCreationFailed),
    }
}

/// The group keys of a member, by reference and in their order.
pub fn prepare_group_keys_for_new_member_with_ref(saved_keys: &Vec<SymKeyFormatInt>) -> (res: Vec<
    &SymKeyFormatInt,
>)
    ensures
        res@.len() == saved_keys@.len(),
        forall|i: int| 0 <= i < res@.len() ==> *res@[i] == saved_keys@[i],
{
    let mut split_group_keys: Vec<&SymKeyFormatInt> = Vec::with_capacity(saved_keys.len());
    let mut i: usize = 0;
    while i < saved_keys.len()
        invariant
            i <= saved_keys@.len(),
            split_group_keys@.len() == i,
            forall|j: int| 0 <= j < i ==> *split_group_keys@[j] == saved_keys@[j],
        decreases saved_keys@.len() - i,
    {
        split_group_keys.push(&saved_keys[i]);
        i += 1;
    }
    split_group_keys
}

/// What a rotation makes: the keys of the new epoch, the key of the
/// rotation, the new group key wrapped under the key of the rotation, and
/// the key of the rotation wrapped under the previous group key.
pub struct Rotation {
    pub epoch: FreshEpoch,
    pub ephemeral_key: Seq<u8>,
    pub wrapped_by_ephemeral: Seq<u8>,
    pub wrapped_ephemeral: Seq<u8>,
}

/// What `key_rotation_with` makes of its random bytes.
///
/// The first bytes give the keys of the new epoch, with the invoker as
/// their first holder. The next are the key of the rotation. The new
/// group key is wrapped under the key of the rotation, and the key of the
/// rotation under the previous group key.
pub open spec fn rotation(previous: Seq<u8>, invoker: Seq<u8>, entropy: Seq<u8>) -> Result<
    Rotation,
    Error,
> {
    if entropy.len() != ROTATION_ENTROPY_LENGTH {
        Err(Error::KeyCreationFailed)
    } else {
        match fresh_epoch(invoker, entropy.subrange(0, 120)) {
            Err(e) => Err(e),
            Ok(epoch) => {
                let ephemeral_key = entropy.subrange(120, 152);
                match sym_encrypted(
                    ephemeral_key,
                    entropy.subrange(152, 164),
                    Seq::<u8>::empty(),
                    epoch.group_key,
                ) {
                    Err(e) => Err(e),
                    Ok(wrapped_by_ephemeral) => match sym_encrypted(
                        previous,
                        entropy.subrange(164, 176),
                        Seq::<u8>::empty(),
                        ephemeral_key,
                    ) {
                        Err(e) => Err(e),
                        Ok(wrapped_ephemeral) => Ok(
                            Rotation {
                                epoch,
                                ephemeral_key,
                                wrapped_by_ephemeral,
                                wrapped_ephemeral,
                            },
                        ),
                    },
                }
            },
        }
    }
}

/// Whether `data` is what the invoker `invoker` sends for the rotation
/// `rotation` of the group key `previous`.
pub open spec fn is_rotation_data(
    data: KeyRotationData,
    previous: KeyView,
    invoker: KeyView,
    rotation: Rotation,
) -> bool {
    &&& data.encrypted_group_key_by_user@ == base64_text(rotation.epoch.wrapped_group_key)
    &&& data.group_key_alg@ == AES_GCM_OUTPUT@
    &&& data.encrypted_group_key_alg@ == invoker.alg
    &&& data.encrypted_private_group_key@ == base64_text(rotation.epoch.wrapped_private_key)
    &&& data.public_group_key@ == rotation.epoch.public_key_pem
    &&& data.keypair_encrypt_alg@ == ECIES_OUTPUT@
    &&& data.encrypted_group_key_by_ephemeral@ == base64_text(rotation.wrapped_by_ephemeral)
    &&& data.ephemeral_alg@ == AES_GCM_OUTPUT@
    &&& data.encrypted_ephemeral_key@ == base64_text(rotation.wrapped_ephemeral)
    &&& data.previous_group_key_id@ == previous.id
    &&& data.invoker_public_key_id@ == invoker.id
}

/// Whether a rotation leads every party to one new group key: the
/// holders of the previous group key `previous` reach it from what the
/// server relays, and the invoker unwraps it with its private key,
/// together with a key pair whose halves belong together.
pub open spec fn rotation_converges(data: KeyRotationData, previous: Seq<u8>, invoker: Seq<u8>)
    -> bool {
    &&& rotated_group_key(
        previous,
        data.encrypted_ephemeral_key@,
        data.encrypted_group_key_by_ephemeral@,
        data.ephemeral_alg@,
    ) matches Ok(new_group_key)
    &&& opens_fresh_epoch_of(
        invoker,
        data.encrypted_group_key_by_user@,
        data.group_key_alg@,
        data.encrypted_private_group_key@,
        data.public_group_key@,
        data.keypair_encrypt_alg@,
        new_group_key,
    )
}

/// Starts a rotation with the random bytes `entropy`: makes the keys of
/// the next epoch and wraps them for the initiator with the public key
/// `invoker_public_key` and for the holders of the previous group key.
///
/// The result is a function of the arguments. Fails with
/// `KeyCreationFailed` where `entropy` has not as many bytes as a rotation
/// takes, with `EncryptionFailed` where a cipher refuses its input, and
/// with `ExportingPublicKeyFailed` where the public key of the group
/// cannot be written. On success there is one new group key, the first 32
/// bytes of `entropy`, that the initiator unwraps with its private key and
/// that every holder of the previous group key reaches from what the
/// server relays; the private key of the new epoch is wrapped under it.
pub fn key_rotation_with(
    previous_group_key: &SymKeyFormatInt,
    invoker_public_key: &PublicKeyFormatInt,
    entropy: &[u8],
) -> (res: Result<KeyRotationData, Error>)
    ensures
        match rotation(previous_group_key.key.bytes(), invoker_public_key.key.bytes(), entropy@) {
            Ok(rotation) => res matches Ok(data) && is_rotation_data(
                data,
                previous_group_key@,
                invoker_public_key@,
                rotation,
            ) && rotated_group_key(
                previous_group_key.key.bytes(),
                data.encrypted_ephemeral_key@,
                data.encrypted_group_key_by_ephemeral@,
                data.ephemeral_alg@,
            ) == Ok::<Seq<u8>, Error>(rotation.epoch.group_key),
            Err(e) => res == Err::<KeyRotationData, Error>(e),
        },
        res matches Ok(data) ==> rotation_converges(
            data,
            previous_group_key.key.bytes(),
            invoker_public_key.key.bytes(),
        ),
{
    if entropy.len() != ROTATION_ENTROPY_LENGTH {
        return Err(Error::KeyCreationFailed);
    }
    let epoch = match make_epoch(&invoker_public_key.key, slice_subrange(entropy, 0, 120)) {
        Ok(epoch) => epoch,
        Err(e) => { return Err(e); },
    };
    let ephemeral_key = match to_array::<32>(slice_subrange(entropy, 120, 152)) {
        Some(key) => SymmetricKey::Aes(key),
        None => { return Err(Error::KeyCreationFailed); },
    };
    let aad: [u8; 0] = [];
    assert(aad@ =~= Seq::<u8>::empty());
    let wrapped_by_ephemeral = match ephemeral_key.encrypt_with_nonce(
        slice_subrange(entropy, 152, 164),
        aad.as_slice(),
        epoch.group_key.as_bytes(),
    ) {
        Ok(wrapped) => wrapped,
        Err(e) => { return Err(e); },
    };
    let wrapped_ephemeral = match previous_group_key.key.encrypt_with_nonce(
        slice_subrange(entropy, 164, 176),
        aad.as_slice(),
        ephemeral_key.as_bytes(),
    ) {
        Ok(wrapped) => wrapped,
        Err(e) => { return Err(e); },
    };
    let ghost group_key = epoch.group_key.bytes();
    let ghost wrapped_group_key = epoch.wrapped_group_key@;
    let data = KeyRotationData {
        encrypted_group_key_by_user: base64_encode(epoch.wrapped_group_key.as_slice()),
        group_key_alg: String::from_str(AES_GCM_OUTPUT),
        encrypted_group_key_alg: String::from_str(invoker_public_key.key.get_alg_str()),
        encrypted_private_group_key: base64_encode(epoch.wrapped_private_key.as_slice()),
        public_group_key: epoch.public_key_pem,
        keypair_encrypt_alg: String::from_str(ECIES_OUTPUT),
        encrypted_group_key_by_ephemeral: base64_encode(wrapped_by_ephemeral.as_slice()),
        ephemeral_alg: String::from_str(AES_GCM_OUTPUT),
        encrypted_ephemeral_key: base64_encode(wrapped_ephemeral.as_slice()),
        previous_group_key_id: previous_group_key.key_id.clone(),
        invoker_public_key_id: invoker_public_key.key_id.clone(),
    };
    proof {
        assert(sym_key_unwrapped(
            previous_group_key.key.bytes(),
            wrapped_ephemeral@,
            AES_GCM_OUTPUT@,
        ) == Ok::<Seq<u8>, Error>(ephemeral_key.bytes()));
        assert(sym_decrypted(ephemeral_key.bytes(), Seq::<u8>::empty(), wrapped_by_ephemeral@)
            == Ok::<Seq<u8>, Error>(group_key));
        assert(rotated_group_key(
            previous_group_key.key.bytes(),
            data.encrypted_ephemeral_key@,
            data.encrypted_group_key_by_ephemeral@,
            data.ephemeral_alg@,
        ) == Ok::<Seq<u8>, Error>(group_key));
        assert forall|secret: Seq<u8>|
            is_key_pair(secret, invoker_public_key.key.bytes()) implies is_fresh_epoch_of(
            #[trigger] epoch_keys_unwrapped(
                secret,
                data.encrypted_group_key_by_user@,
                data.group_key_alg@,
                data.encrypted_private_group_key@,
                data.public_group_key@,
                data.keypair_encrypt_alg@,
            ),
            group_key,
        ) by {
            assert(sym_key_unwrapped_by_secret(secret, wrapped_group_key, AES_GCM_OUTPUT@)
                == Ok::<Seq<u8>, Error>(group_key));
        }
    }
    Ok(data)
}

/// Starts a rotation: makes the keys of the next epoch and wraps them for
/// the initiator with the public key `invoker_public_key` and for the
/// holders of the previous group key.
///
/// Fails with `KeyCreationFailed` where the system gives no random
/// bytes, and as `key_rotation_with` does, which says what is made of
/// them. On success there is one new group key that the initiator unwraps
/// with its private key and that every holder of the previous group key
/// reaches from what the server relays; the private key of the new epoch
/// is wrapped under it.
pub fn key_rotation(previous_group_key: &SymKeyFormatInt, invoker_public_key: &PublicKeyFormatInt)
    -> (res: Result<KeyRotationData, Error>)
    ensures
        res matches Ok(data) ==> {
            &&& data.previous_group_key_id@ == previous_group_key.key_id@
            &&& data.invoker_public_key_id@ == invoker_public_key.key_id@
            &&& data.encrypted_group_key_alg@ == invoker_public_key.key.alg()
            &&& rotation_converges(
                data,
                previous_group_key.key.bytes(),
                invoker_public_key.key.bytes(),
            )
        },
        res matches Err(e) ==> e == Error::KeyCreationFailed || e == Error::EncryptionFailed || e
            == Error::ExportingPublicKeyFailed,
{
    match random_bytes(ROTATION_ENTROPY_LENGTH) {
        Some(entropy) => key_rotation_with(
            previous_group_key,
            invoker_public_key,
            entropy.as_slice(),
        ),
        None => Err(Error::KeyCreationFailed),
    }
}

/// What `done_key_rotation_with` makes of its arguments: the new group
/// key that the server's artifacts lead to, wrapped for the member's own
/// public key with the random bytes `entropy`.
pub open spec fn rotation_done(
    public: Seq<u8>,
    previous: Seq<u8>,
    server_output: KeyRotationInput,
    entropy: Seq<u8>,
) -> Result<Seq<u8>, Error> {
    match rotated_group_key(
        previous,
        server_output.encrypted_ephemeral_key_by_group_key_and_public_key@,
        server_output.encrypted_group_key_by_ephemeral@,
        server_output.ephemeral_alg@,
    ) {
        Err(e) => Err(e),
        Ok(new_group_key) => if entropy.len() != WRAP_ENTROPY_LENGTH {
            Err(Error::KeyCreationFailed)
        } else {
            match wrapped_for(public, entropy, new_group_key) {
                Err(e) => Err(e),
                Ok(rewrapped) => if rewrapped.len() * 4 > usize::MAX {
                    Err(Error::EncryptionFailed)
                } else {
                    Ok(rewrapped)
                },
            }
        },
    }
}

fn reach_new_group_key(previous_group_key: &SymKeyFormatInt, server_output: &KeyRotationInput)
    -> (res: Result<Vec<u8>, Error>)
    ensures
        result_bytes(res) == rotated_group_key(
            previous_group_key.key.bytes(),
            server_output.encrypted_ephemeral_key_by_group_key_and_public_key@,
            server_output.encrypted_group_key_by_ephemeral@,
            server_output.ephemeral_alg@,
        ),
{
    let wrapped_ephemeral = match decode_wrapped_key(
        server_output.encrypted_ephemeral_key_by_group_key_and_public_key.as_str(),
        Error::KeyRotationServerOutputWrong,
    ) {
        Ok(wrapped) => wrapped,
        Err(e) => { return Err(e); },
    };
    let wrapped_group_key = match decode_wrapped_key(
        server_output.encrypted_group_key_by_ephemeral.as_str(),
        Error::KeyRotationServerOutputWrong,
    ) {
        Ok(wrapped) => wrapped,
        Err(e) => { return Err(e); },
    };
    let ephemeral_key = match SymmetricKey::decrypt_key_by_sym_key(
        &previous_group_key.key,
        wrapped_ephemeral.as_slice(),
        server_output.ephemeral_alg.as_str(),
    ) {
        Ok(key) => key,
        Err(e) => { return Err(e); },
    };
    ephemeral_key.decrypt(wrapped_group_key.as_slice())
}

/// Completes a rotation for one member with the random bytes `entropy`:
/// reaches the new group key from what the server relays and wraps it for
/// the member's own public key.
///
/// The artifact named after the group key and the public key was
/// encrypted under the previous group key alone, so both steps are
/// symmetric and the private key takes no part in them. The result is a
/// function of the arguments. Fails with `KeyRotationServerOutputWrong`
/// where an artifact is no Base64, as decryption does where
/// `previous_group_key` is not the key of the epoch that is retired or an
/// artifact is damaged, with `KeyCreationFailed` where `entropy` has not
/// the 44 bytes that wrapping takes, and with `EncryptionFailed` where the
/// new key cannot be wrapped. On success the member unwraps from the
/// result, with its private key, the new group key that the server's
/// artifacts lead to.
pub fn done_key_rotation_with(
    private_key: &PrivateKeyFormatInt,
    public_key: &PublicKeyFormatInt,
    previous_group_key: &SymKeyFormatInt,
    server_output: &KeyRotationInput,
    entropy: &[u8],
) -> (res: Result<DoneKeyRotationData, Error>)
    ensures
        match rotation_done(
            public_key.key.bytes(),
            previous_group_key.key.bytes(),
            *server_output,
            entropy@,
        ) {
            Err(e) => res == Err::<DoneKeyRotationData, Error>(e),
            Ok(rewrapped) => {
                &&& res matches Ok(data)
                &&& data.encrypted_new_group_key@ == base64_text(rewrapped)
                &&& data.public_key_id@ == public_key.key_id@
                &&& data.encrypted_alg@ == public_key.key.alg()
            },
        },
        res matches Ok(data) ==> rotated_group_key(
            previous_group_key.key.bytes(),
            server_output.encrypted_ephemeral_key_by_group_key_and_public_key@,
            server_output.encrypted_group_key_by_ephemeral@,
            server_output.ephemeral_alg@,
        ) matches Ok(new_group_key) && forall|secret: Seq<u8>|
            is_key_pair(secret, public_key.key.bytes()) ==> #[trigger] rewrapped_group_key(
                secret,
                data.encrypted_new_group_key@,
            ) == Ok::<Seq<u8>, Error>(new_group_key),
{
    let new_group_key = match reach_new_group_key(previous_group_key, server_output) {
        Ok(key) => key,
        Err(e) => { return Err(e); },
    };
    if entropy.len() != WRAP_ENTROPY_LENGTH {
        return Err(Error::KeyCreationFailed);
    }
    let rewrapped = match wrap_for(&public_key.key, entropy, new_group_key.as_slice()) {
        Ok(wrapped) => wrapped,
        Err(e) => { return Err(e); },
    };
    if rewrapped.len() > usize::MAX / 4 {
        return Err(Error::EncryptionFailed);
    }
    Ok(
        DoneKeyRotationData {
            encrypted_new_group_key: base64_encode(rewrapped.as_slice()),
            public_key_id: public_key.key_id.clone(),
            encrypted_alg: String::from_str(public_key.key.get_alg_str()),
        },
    )
}

/// Completes a rotation for one member: reaches the new group key from
/// what the server relays and wraps it for the member's own public key.
///
/// Fails as reaching the new group key does, whatever the random bytes:
/// with `KeyRotationServerOutputWrong` where an artifact is no Base64, and
/// as decryption does where `previous_group_key` is not the key of the
/// epoch that is retired or an artifact is damaged. Fails with
/// `KeyCreationFailed` where the system gives no random bytes, and as
/// `done_key_rotation_with` does, which says what is made of them. On
/// success the member unwraps from the result, with its private key, the
/// new group key that the server's artifacts lead to.
pub fn done_key_rotation(
    private_key: &PrivateKeyFormatInt,
    public_key: &PublicKeyFormatInt,
    previous_group_key: &SymKeyFormatInt,
    server_output: &KeyRotationInput,
) -> (res: Result<DoneKeyRotationData, Error>)
    ensures
        match rotated_group_key(
            previous_group_key.key.bytes(),
            server_output.encrypted_ephemeral_key_by_group_key_and_public_key@,
            server_output.encrypted_group_key_by_ephemeral@,
            server_output.ephemeral_alg@,
        ) {
            Err(e) => res == Err::<DoneKeyRotationData, Error>(e),
            Ok(new_group_key) => match res {
                Ok(data) => {
                    &&& data.public_key_id@ == public_key.key_id@
                    &&& data.encrypted_alg@ == public_key.key.alg()
                    &&& forall|secret: Seq<u8>|
                        is_key_pair(secret, public_key.key.bytes())
                            ==> #[trigger] rewrapped_group_key(
                            secret,
                            data.encrypted_new_group_key@,
                        ) == Ok::<Seq<u8>, Error>(new_group_key)
                },
                Err(e) => e == Error::KeyCreationFailed || e == Error::EncryptionFailed,
            },
        },
{
    match reach_new_group_key(previous_group_key, server_output) {
        Ok(_) => {},
        Err(e) => { return Err(e); },
    }
    match random_bytes(WRAP_ENTROPY_LENGTH) {
        Some(entropy) => done_key_rotation_with(
            private_key,
            public_key,
            previous_group_key,
            server_output,
            entropy.as_slice(),
        ),
        None => Err(Error::KeyCreationFailed),
    }
}

/// A rotation changes the key wherever the random bytes that become the
/// new group key differ from the previous group key: then the new group
/// key is another key than the previous one.
pub proof fn lemma_rotation_changes_key(previous: Seq<u8>, invoker: Seq<u8>, entropy: Seq<u8>)
    requires
        rotation(previous, invoker, entropy) is Ok,
        entropy.subrange(0, AES_KEY_LENGTH as int) != previous,
    ensures
        rotation(previous, invoker, entropy) matches Ok(rotated) && rotated.epoch.group_key
            != previous,
{
    assert(entropy.subrange(0, 120).subrange(0, 32) =~= entropy.subrange(0, 32));
}

/// Fan-out is consistent: where the server hands a new member the entry
/// that an older member made for it, under the identifier of the epoch,
/// the new member unwraps the group key that the older member holds, the
/// same raw material under the same identifier.
pub proof fn lemma_fan_out_consistency(
    secret: Seq<u8>,
    entry: GroupKeysForNewMember,
    group_key: KeyView,
    output: GroupKeyServerOutput,
)
    requires
        new_member_key(secret, entry) == Ok::<KeyView, Error>(group_key),
        output.encrypted_group_key@ == entry.encrypted_group_key@,
        output.group_key_alg@ == entry.alg@,
        output.group_key_id@ == entry.key_id@,
        group_keys_decrypted(secret, output) is Ok,
    ensures
        group_keys_decrypted(secret, output) matches Ok(keys) && keys.group_key == group_key,
{
}

/// Rotation converges: two members that hold the same previous group key
/// and get the same artifacts from the server reach the same new group
/// key, and it is the key that the initiator unwraps for itself.
pub proof fn lemma_rotation_convergence(
    previous_group_key: Seq<u8>,
    data: KeyRotationData,
    first: KeyRotationInput,
    second: KeyRotationInput,
)
    requires
        first.encrypted_ephemeral_key_by_group_key_and_public_key@
            == data.encrypted_ephemeral_key@,
        second.encrypted_ephemeral_key_by_group_key_and_public_key@
            == data.encrypted_ephemeral_key@,
        first.encrypted_group_key_by_ephemeral@ == data.encrypted_group_key_by_ephemeral@,
        second.encrypted_group_key_by_ephemeral@ == data.encrypted_group_key_by_ephemeral@,
        first.ephemeral_alg@ == data.ephemeral_alg@,
        second.ephemeral_alg@ == data.ephemeral_alg@,
    ensures
        rotated_group_key(
            previous_group_key,
            first.encrypted_ephemeral_key_by_group_key_and_public_key@,
            first.encrypted_group_key_by_ephemeral@,
            first.ephemeral_alg@,
        ) == rotated_group_key(
            previous_group_key,
            second.encrypted_ephemeral_key_by_group_key_and_public_key@,
            second.encrypted_group_key_by_ephemeral@,
            second.ephemeral_alg@,
        ),
        rotated_group_key(
            previous_group_key,
            first.encrypted_ephemeral_key_by_group_key_and_public_key@,
            first.encrypted_group_key_by_ephemeral@,
            first.ephemeral_alg@,
        ) == rotated_group_key(
            previous_group_key,
            data.encrypted_ephemeral_key@,
            data.encrypted_group_key_by_ephemeral@,
            data.ephemeral_alg@,
        ),
{
}

} // verus!
