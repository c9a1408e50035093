//! The node's identity: a public key and the secret key it is derived from.
//!
//! A key pair is either built from a secret key supplied by the
//! configuration, read from a keys file, or generated and handed back for
//! saving. The file holds the public key followed by the secret key, with
//! nothing before, between or after them. Reading and writing the file is
//! left to the caller; this module decides what the bytes mean.

use vstd::prelude::*;

verus! {

/// Length of a public key in bytes.
pub const PUBLIC_KEY_BYTES: usize = 32;

/// Length of a secret key in bytes.
pub const SECRET_KEY_BYTES: usize = 32;

/// Length of a keys file: the public key followed by the secret key.
pub const KEYS_FILE_BYTES: usize = 64;

/// Permission bits of a newly created keys file, where the platform has
/// such bits: the owner may read and write, nobody else may do anything.
pub const KEYS_FILE_MODE: u32 = 0o600;

/// Why no identity could be established.
#[derive(Clone, Copy, Debug, PartialEq, Eq, Structural)]
pub enum IdentityError {
    /// Neither a secret key nor a keys file was configured.
    NoIdentity,
    /// The keys file exists but could not be opened.
    Unreadable,
    /// The keys file is shorter than a public key and a secret key.
    Truncated,
    /// The public key in the keys file is not the one of its secret key.
    KeyMismatch,
}

/// The public key that belongs to a secret key.
pub uninterp spec fn derived_public_key(secret_key: Seq<u8>) -> Seq<u8>;

/// A key pair as two byte sequences.
pub struct KeyPairView {
    pub public_key: Seq<u8>,
    pub secret_key: Seq<u8>,
}

/// A pair is consistent when both keys have their length and the public
/// key is the one derived from the secret key.
pub open spec fn is_key_pair(keys: KeyPairView) -> bool {
    &&& keys.public_key.len() == PUBLIC_KEY_BYTES
    &&& keys.secret_key.len() == SECRET_KEY_BYTES
    &&& keys.public_key == derived_public_key(keys.secret_key)
}

/// The contents of the keys file of a pair: public key first.
pub open spec fn keys_file_contents(keys: KeyPairView) -> Seq<u8> {
    keys.public_key + keys.secret_key
}

/// What the contents of a keys file stand for. The first 64 bytes are split
/// into the two keys, and the pair counts only if it is consistent.
pub open spec fn parse_keys_file(bytes: Seq<u8>) -> Result<KeyPairView, IdentityError> {
    if bytes.len() < KEYS_FILE_BYTES {
        Err(IdentityError::Truncated)
    } else {
        let public_key = bytes.subrange(0, PUBLIC_KEY_BYTES as int);
        let secret_key = bytes.subrange(PUBLIC_KEY_BYTES as int, KEYS_FILE_BYTES as int);
        if public_key == derived_public_key(secret_key) {
            Ok(KeyPairView { public_key, secret_key })
        } else {
            Err(IdentityError::KeyMismatch)
        }
    }
}

/// The node's keys. Every value of this type is consistent: there is no way
/// to build one whose public key does not belong to its secret key.
pub struct KeyPair {
    public_key: [u8; 32],
    secret_key: [u8; 32],
}

impl View for KeyPair {
    type V = KeyPairView;

    closed spec fn view(&self) -> KeyPairView {
        KeyPairView { public_key: self.public_key@, secret_key: self.secret_key@ }
    }
}

/// Calls `SecretKey::public_key` of the crypto crate, which multiplies the
/// curve's base point by the secret key. The result depends on the bytes of
/// the secret key alone and is named `derived_public_key`.
#[verifier::external_body]
fn derive_public_key(secret_key: &[u8; 32]) -> (public_key: [u8; 32])
    ensures
        public_key@ == derived_public_key(secret_key@),
{
    tox::crypto::SecretKey(*secret_key).public_key().0
}

/// Calls `gen_keypair` of the crypto crate, which draws a random secret key
/// and computes its public key by the same multiplication as
/// `SecretKey::public_key`. Nothing is claimed of which secret key comes
/// out, only that the two keys belong together.
#[verifier::external_body]
fn generate_key_pair() -> (keys: KeyPair)
    ensures
        is_key_pair(keys@),
{
    let (public_key, secret_key) = tox::crypto::gen_keypair();
    KeyPair { public_key: public_key.0, secret_key: secret_key.0 }
}

/// Copies the 32 bytes that start at `start`.
fn copy_key(bytes: &[u8], start: usize) -> (key: [u8; 32])
    requires
        start + 32 <= bytes@.len(),
    ensures
        key@ == bytes@.subrange(start as int, start + 32),
{
    let len = bytes.len();
    let mut key = [0u8; 32];
    let mut i: usize = 0;
    while i < 32
        invariant
            i <= 32,
            len == bytes@.len(),
            start + 32 <= len,
            forall|j: int| 0 <= j < i ==> key@[j] == bytes@[start + j],
        decreases 32 - i,
    {
        key[i] = bytes[start + i];
        i += 1;
    }
    assert(key@ =~= bytes@.subrange(start as int, start + 32));
    key
}

/// Whether two keys hold the same bytes. This is the test that a stored
/// public key has to pass against the one derived from its secret key.
pub fn same_key(left: &[u8; 32], right: &[u8; 32]) -> (same: bool)
    ensures
        same == (left@ == right@),
{
    let mut i: usize = 0;
    while i < 32
        invariant
            i <= 32,
            forall|j: int| 0 <= j < i ==> left@[j] == right@[j],
        decreases 32 - i,
    {
        if left[i] != right[i] {
            return false;
        }
        i += 1;
    }
    assert(left@ =~= right@);
    true
}

impl KeyPair {
    #[verifier::type_invariant]
    spec fn consistent(self) -> bool {
        is_key_pair(self@)
    }

    /// The pair of a secret key: the public key is derived from it.
    pub fn from_secret_key(secret_key: [u8; 32]) -> (keys: KeyPair)
        ensures
            keys@.secret_key == secret_key@,
            is_key_pair(keys@),
    {
        let public_key = derive_public_key(&secret_key);
        KeyPair { public_key, secret_key }
    }

    /// The public key.
    pub fn public_key(&self) -> (key: [u8; 32])
        ensures
            key@ == self@.public_key,
            key@ == derived_public_key(self@.secret_key),
    {
        proof {
            use_type_invariant(self);
        }
        self.public_key
    }

    /// The secret key.
    pub fn secret_key(&self) -> (key: [u8; 32])
        ensures
            key@ == self@.secret_key,
    {
        self.secret_key
    }
}

/// The bytes to write to the keys file: the public key, then the secret key.
pub fn save_keys(keys: &KeyPair) -> (bytes: Vec<u8>)
    ensures
        bytes@ == keys_file_contents(keys@),
        bytes@.len() == KEYS_FILE_BYTES,
{
    let mut bytes: Vec<u8> = Vec::with_capacity(KEYS_FILE_BYTES);
    let mut i: usize = 0;
    while i < 32
        invariant
            i <= 32,
            bytes@ == keys.public_key@.subrange(0, i as int),
        decreases 32 - i,
    {
        bytes.push(keys.public_key[i]);
        i += 1;
    }
    assert(keys.public_key@.subrange(0, 32) =~= keys.public_key@);
    let mut k: usize = 0;
    while k < 32
        invariant
            k <= 32,
            bytes@ == keys.public_key@ + keys.secret_key@.subrange(0, k as int),
        decreases 32 - k,
    {
        bytes.push(keys.secret_key[k]);
        k += 1;
    }
    assert(keys.secret_key@.subrange(0, 32) =~= keys.secret_key@);
    bytes
}

/// Reads a key pair from the contents of a keys file. The public key is
/// checked against the secret key; a pair that does not match is refused,
/// never repaired.
pub fn load_keys(bytes: &[u8]) -> (loaded: Result<KeyPair, IdentityError>)
    ensures
        match loaded {
            Ok(keys) => parse_keys_file(bytes@) == Ok::<KeyPairView, IdentityError>(keys@),
            Err(error) => parse_keys_file(bytes@) == Err::<KeyPairView, IdentityError>(error),
        },
{
    if bytes.len() < KEYS_FILE_BYTES {
        return Err(IdentityError::Truncated);
    }
    let public_key = copy_key(bytes, 0);
    let secret_key = copy_key(bytes, PUBLIC_KEY_BYTES);
    let expected = derive_public_key(&secret_key);
    if same_key(&public_key, &expected) {
        Ok(KeyPair { public_key, secret_key })
    } else {
        Err(IdentityError::KeyMismatch)
    }
}

/// What opening the keys file gave.
pub enum KeysFile {
    /// The file exists; these are its first bytes, up to the length of a
    /// keys file.
    Contents(Vec<u8>),
    /// There is no such file.
    Missing,
    /// The file could not be opened for another reason.
    Unreadable,
}

/// An identity together with what is still to be written to disk.
pub struct Identity {
    /// The node's keys.
    pub keys: KeyPair,
    /// The contents of the keys file to create, where the keys are new.
    pub unsaved: Option<Vec<u8>>,
}

impl Identity {
    /// An identity read from an existing keys file: nothing is to be written.
    pub fn loaded(keys: KeyPair) -> (identity: Identity)
        ensures
            identity.keys@ == keys@,
            identity.unsaved is None,
    {
        Identity { keys, unsaved: None }
    }

    /// A new identity: its keys file is still to be written.
    pub fn generated(keys: KeyPair) -> (identity: Identity)
        ensures
            identity.keys@ == keys@,
            identity.unsaved matches Some(bytes) && bytes@ == keys_file_contents(keys@),
    {
        let bytes = save_keys(&keys);
        Identity { keys, unsaved: Some(bytes) }
    }
}

/// Loads the keys from the keys file, or generates new ones where there is
/// no file yet. New keys come with the bytes to save; keys that were read
/// come with none. A file that cannot be opened, is too short or holds keys
/// that do not belong together is an error.
pub fn load_or_gen_keys(file: &KeysFile) -> (outcome: Result<Identity, IdentityError>)
    ensures
        match *file {
            KeysFile::Contents(bytes) => match outcome {
                Ok(identity) => {
                    &&& parse_keys_file(bytes@) == Ok::<KeyPairView, IdentityError>(identity.keys@)
                    &&& identity.unsaved is None
                },
                Err(error) => parse_keys_file(bytes@) == Err::<KeyPairView, IdentityError>(error),
            },
            KeysFile::Missing => {
                &&& outcome matches Ok(identity)
                &&& is_key_pair(identity.keys@)
                &&& identity.unsaved matches Some(saved)
                &&& saved@ == keys_file_contents(identity.keys@)
            },
            KeysFile::Unreadable => outcome matches Err(error) && error == IdentityError::Unreadable,
        },
{
    match file {
        KeysFile::Contents(bytes) => {
            match load_keys(bytes.as_slice()) {
                Ok(keys) => Ok(Identity::loaded(keys)),
                Err(error) => Err(error),
            }
        },
        KeysFile::Missing => Ok(Identity::generated(generate_key_pair())),
        KeysFile::Unreadable => Err(IdentityError::Unreadable),
    }
}

/// The next step towards an identity.
pub enum IdentityStep {
    /// The keys are known.
    Ready(KeyPair),
    /// The keys file has to be opened and handed to `load_or_gen_keys`.
    OpenKeysFile,
}

/// Decides where the identity comes from. A configured secret key wins and
/// no file is touched; otherwise the keys file is used; with neither there
/// is no identity.
pub fn resolve_identity(secret_key: Option<[u8; 32]>, has_keys_file: bool) -> (step: Result<
    IdentityStep,
    IdentityError,
>)
    ensures
        match secret_key {
            Some(key) => {
                &&& step matches Ok(IdentityStep::Ready(keys))
                &&& keys@.secret_key == key@
                &&& keys@.public_key == derived_public_key(key@)
            },
            None => if has_keys_file {
                step matches Ok(IdentityStep::OpenKeysFile)
            } else {
                step matches Err(error) && error == IdentityError::NoIdentity
            },
        },
{
    match secret_key {
        Some(key) => Ok(IdentityStep::Ready(KeyPair::from_secret_key(key))),
        None => if has_keys_file {
            Ok(IdentityStep::OpenKeysFile)
        } else {
            Err(IdentityError::NoIdentity)
        },
    }
}

/// The keys file written for a consistent pair starts with the public key
/// derived from its secret key, and reading it back gives the same pair.
pub proof fn lemma_saved_keys_reload(keys: KeyPairView)
    requires
        is_key_pair(keys),
    ensures
        keys_file_contents(keys).subrange(0, PUBLIC_KEY_BYTES as int) == derived_public_key(
            keys.secret_key,
        ),
        parse_keys_file(keys_file_contents(keys)) == Ok::<KeyPairView, IdentityError>(keys),
{
    let bytes = keys_file_contents(keys);
    assert(bytes.subrange(0, PUBLIC_KEY_BYTES as int) =~= keys.public_key);
    assert(bytes.subrange(PUBLIC_KEY_BYTES as int, KEYS_FILE_BYTES as int) =~= keys.secret_key);
}

/// A keys file whose public key was changed while its secret key was kept
/// is refused as a mismatch, whatever the new public key is.
pub proof fn lemma_tampered_public_key_is_refused(keys: KeyPairView, tampered: Seq<u8>)
    requires
        is_key_pair(keys),
        tampered.len() == KEYS_FILE_BYTES,
        tampered.subrange(PUBLIC_KEY_BYTES as int, KEYS_FILE_BYTES as int) == keys.secret_key,
        tampered.subrange(0, PUBLIC_KEY_BYTES as int) != keys.public_key,
    ensures
        parse_keys_file(tampered) == Err::<KeyPairView, IdentityError>(IdentityError::KeyMismatch),
{
}

} // verus!
