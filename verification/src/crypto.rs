use vstd::prelude::*;

use crate::encoding::hex_of;
use crate::encoding::hex_string;
use crate::errors::AppError;
use ring::rand::SecureRandom;
use ring::signature::Ed25519KeyPair;
use ring::signature::KeyPair;
use rsa::pkcs1::DecodeRsaPublicKey;
use rsa::pkcs8::DecodePrivateKey;

verus! {

#[verifier::external_type_specification]
#[verifier::external_body]
pub struct ExEd25519KeyPair(Ed25519KeyPair);

/// The 32-byte Ed25519 public key held in a PKCS#8 v2 document, or `None`
/// when the document does not parse as one. Stands for what
/// `ring::signature::Ed25519KeyPair::from_pkcs8` extracts.
pub uninterp spec fn ed25519_public_of(pkcs8: Seq<u8>) -> Option<Seq<u8>>;

/// The symmetric key recovered by parsing a PKCS#8 DER private key with
/// `rsa::pkcs8::DecodePrivateKey::from_pkcs8_der` and decrypting a wrapped
/// blob with `RsaPrivateKey::decrypt` under PKCS#1 v1.5 padding, or `None`
/// when either step fails. Deterministic: no randomness enters decryption.
pub uninterp spec fn rsa_unwrap(priv_der: Seq<u8>, wrapped: Seq<u8>) -> Option<Seq<u8>>;

/// The PKCS#1 DER encoding of the public key belonging to a PKCS#8 DER
/// private key (`rsa::pkcs8::DecodePrivateKey::from_pkcs8_der`, then
/// `RsaPublicKey::from` and `rsa::pkcs1::EncodeRsaPublicKey::to_pkcs1_der`),
/// or `None` when the private key does not parse.
pub uninterp spec fn rsa_public_der_of(priv_der: Seq<u8>) -> Option<Seq<u8>>;

/// Whether `priv_der` encodes a sound RSA private key: one built, as
/// `rsa::RsaPrivateKey::new` builds it, from two distinct primes. Parsing
/// with `from_pkcs8_der` checks only that the factors multiply to the
/// modulus and invert the public exponent, so a crafted document with a
/// repeated or composite factor parses and matches a public key, yet its
/// decryptions fail; the wrapping contract quantifies over sound keys only.
pub uninterp spec fn rsa_sound_keypair(priv_der: Seq<u8>) -> bool;

/// Whether PKCS#1 v1.5 wrapping under the public key `pub_der` accepts a
/// payload of `key_len` bytes: the DER parses via `from_pkcs1_der` as an
/// RSA public key that passes the rsa crate's public-key checks, and
/// `key_len` is at most the modulus length minus the 11 bytes of padding.
/// Success of `RsaPublicKey::encrypt` is deterministic in exactly these two
/// arguments: the random padding bytes never decide it.
pub uninterp spec fn rsa_wrap_accepts(pub_der: Seq<u8>, key_len: int) -> bool;

/// The byte length of the modulus of the RSA public key that `pub_der`
/// encodes: what `rsa::traits::PublicKeyParts::size` returns for the parsed
/// key, and the length every PKCS#1 v1.5 ciphertext under it is padded to.
pub uninterp spec fn rsa_mod_len(pub_der: Seq<u8>) -> int;

/// The BIP-39 English phrase encoding a 16-byte entropy buffer: what
/// `bip39::Mnemonic::from_entropy` renders through `Display`, the words
/// joined by single spaces. Deterministic in the entropy alone.
pub uninterp spec fn phrase_of_entropy(entropy: Seq<u8>) -> Seq<char>;

/// The 64-byte BIP-39 seed of a recovery phrase with an empty passphrase
/// (`bip39::Mnemonic::parse_in_normalized` with the English wordlist, then
/// `Mnemonic::to_seed`), or `None` when the phrase is invalid: an unknown
/// word, a wrong word count, or a failed checksum. Deterministic in the
/// phrase alone.
pub uninterp spec fn phrase_seed(phrase: Seq<char>) -> Option<Seq<u8>>;

/// `wrapped` is a wrapping of the symmetric key `key` for the recipient
/// whose PKCS#1 DER public key is `pub_der`: every sound private key
/// matching that public key unwraps it back to `key`.
pub open spec fn wraps_key_for(pub_der: Seq<u8>, key: Seq<u8>, wrapped: Seq<u8>) -> bool {
    forall|priv_der: Seq<u8>|
        rsa_sound_keypair(priv_der) && rsa_public_der_of(priv_der) == Some(pub_der)
            ==> #[trigger] rsa_unwrap(priv_der, wrapped) == Some(key)
}

/// The derived key a recovery phrase yields: the first 32 bytes of its seed,
/// rendered in lower-case hexadecimal.
pub open spec fn key_of_phrase(phrase: Seq<char>) -> Option<Seq<char>> {
    match phrase_seed(phrase) {
        Some(seed) => Some(hex_of(seed.subrange(0, 32))),
        None => None,
    }
}

/// The sealed output (ciphertext with the 16-byte authentication tag
/// appended) of AES-256-GCM with empty associated data, as a function of the
/// 32-byte key, the 12-byte nonce and the plaintext. Stands for what
/// `ring::aead::LessSafeKey::seal_in_place_append_tag` computes; its value is
/// never written out here, only related to `gcm_open` below.
pub uninterp spec fn gcm_seal(key: Seq<u8>, nonce: Seq<u8>, msg: Seq<u8>) -> Seq<u8>;

/// The result of AES-256-GCM open with empty associated data on a sealed
/// buffer (ciphertext plus tag): the recovered plaintext, or `None` when the
/// tag does not verify. Stands for what
/// `ring::aead::LessSafeKey::open_in_place` computes.
pub uninterp spec fn gcm_open(key: Seq<u8>, nonce: Seq<u8>, sealed: Seq<u8>) -> Option<Seq<u8>>;

/// What decryption of a ciphertext envelope yields: the envelope is a
/// 12-byte nonce followed by the sealed payload (at least a 16-byte tag),
/// opened under a 32-byte key. `None` on any malformed input or failed tag
/// verification.
pub open spec fn decrypt_spec(key: Seq<u8>, env: Seq<u8>) -> Option<Seq<u8>> {
    if key.len() == 32 && env.len() >= 28 {
        gcm_open(key, env.subrange(0, 12), env.subrange(12, env.len() as int))
    } else {
        None
    }
}

/// Relies on `ring::rand::SystemRandom` and `SecureRandom::fill`: on success
/// the buffer of the requested length is filled with fresh random bytes.
/// Nothing is stated of the bytes themselves: they are random.
#[verifier::external_body]
fn fill_random(n: usize) -> (r: Result<Vec<u8>, AppError>)
    ensures
        r matches Ok(b) ==> b@.len() == n,
        r matches Err(e) ==> e == AppError::CryptoError,
{
    let rng = ring::rand::SystemRandom::new();
    let mut buf = vec![0u8; n];
    match rng.fill(&mut buf) {
        Ok(()) => Ok(buf),
        Err(_) => Err(AppError::CryptoError),
    }
}

/// Relies on `ring::aead` (`UnboundKey::new` with `AES_256_GCM`,
/// `LessSafeKey::seal_in_place_append_tag`, empty associated data): sealing
/// appends the 16-byte tag to the ciphertext, which is as long as the
/// plaintext, and `open_in_place` under the same key and nonce recovers
/// exactly the plaintext.
#[verifier::external_body]
fn gcm_seal_bytes(key: &[u8], nonce: &[u8], msg: &[u8]) -> (r: Result<Vec<u8>, AppError>)
    requires
        key@.len() == 32,
        nonce@.len() == 12,
    ensures
        r matches Ok(c) ==> c@ == gcm_seal(key@, nonce@, msg@),
        r matches Ok(c) ==> c@.len() == msg@.len() + 16,
        r matches Ok(c) ==> gcm_open(key@, nonce@, c@) == Some(msg@),
        r matches Err(e) ==> e == AppError::CryptoError,
{
    let unbound = ring::aead::UnboundKey::new(&ring::aead::AES_256_GCM, key)
        .map_err(|_| AppError::CryptoError)?;
    let sealing_key = ring::aead::LessSafeKey::new(unbound);
    let nonce = ring::aead::Nonce::try_assume_unique_for_key(nonce)
        .map_err(|_| AppError::CryptoError)?;
    let mut in_out = msg.to_vec();
    sealing_key
        .seal_in_place_append_tag(nonce, ring::aead::Aad::empty(), &mut in_out)
        .map_err(|_| AppError::CryptoError)?;
    Ok(in_out)
}

/// Relies on `ring::aead` (`UnboundKey::new` with `AES_256_GCM`,
/// `LessSafeKey::open_in_place`, empty associated data): opening succeeds
/// exactly when the tag verifies, and then returns the plaintext, 16 bytes
/// shorter than the sealed input.
#[verifier::external_body]
fn gcm_open_bytes(key: &[u8], nonce: &[u8], sealed: &[u8]) -> (r: Option<Vec<u8>>)
    requires
        key@.len() == 32,
        nonce@.len() == 12,
    ensures
        r is Some <==> gcm_open(key@, nonce@, sealed@) is Some,
        r matches Some(p) ==> gcm_open(key@, nonce@, sealed@) == Some(p@),
        r matches Some(p) ==> p@.len() + 16 == sealed@.len(),
{
    let unbound = ring::aead::UnboundKey::new(&ring::aead::AES_256_GCM, key).ok()?;
    let opening_key = ring::aead::LessSafeKey::new(unbound);
    let nonce = ring::aead::Nonce::try_assume_unique_for_key(nonce).ok()?;
    let mut in_out = sealed.to_vec();
    let plaintext = opening_key
        .open_in_place(nonce, ring::aead::Aad::empty(), &mut in_out)
        .ok()?;
    Some(plaintext.to_vec())
}

/// Concatenation of two byte slices.
fn concat_bytes(a: &[u8], b: &[u8]) -> (r: Vec<u8>)
    ensures
        r@ == a@ + b@,
{
    let mut r: Vec<u8> = Vec::new();
    let n = a.len();
    let m = b.len();
    for i in 0..n
        invariant
            n == a@.len(),
            r@ =~= a@.subrange(0, i as int),
    {
        r.push(a[i]);
        proof {
            assert(a@.subrange(0, i + 1) =~= a@.subrange(0, i as int).push(a@[i as int]));
        }
    }
    for j in 0..m
        invariant
            n == a@.len(),
            m == b@.len(),
            r@ =~= a@ + b@.subrange(0, j as int),
    {
        r.push(b[j]);
        proof {
            assert(b@.subrange(0, j + 1) =~= b@.subrange(0, j as int).push(b@[j as int]));
        }
    }
    proof {
        assert(a@.subrange(0, n as int) =~= a@);
        assert(b@.subrange(0, m as int) =~= b@);
        assert(r@ =~= a@ + b@);
    }
    r
}

/// Relies on `ring::signature::Ed25519KeyPair::generate_pkcs8`: the
/// generated document is a PKCS#8 v2 `OneAsymmetricKey` of 83 bytes (a
/// 19-byte template, the 32-byte seed, the 32-byte public key) that
/// `from_pkcs8` accepts.
#[verifier::external_body]
fn ed25519_generate_pkcs8() -> (r: Result<Vec<u8>, AppError>)
    ensures
        r matches Ok(d) ==> d@.len() == 83 && ed25519_public_of(d@) is Some,
        r matches Err(e) ==> e == AppError::CryptoError,
{
    let rng = ring::rand::SystemRandom::new();
    match Ed25519KeyPair::generate_pkcs8(&rng) {
        Ok(doc) => Ok(doc.as_ref().to_vec()),
        Err(_) => Err(AppError::CryptoError),
    }
}

/// Relies on `ring::signature::Ed25519KeyPair::from_pkcs8` and
/// `KeyPair::public_key`: parsing succeeds exactly on valid PKCS#8 v2
/// Ed25519 documents and hands back the keypair with its 32-byte public key.
#[verifier::external_body]
fn ed25519_parse_keypair(pkcs8: &[u8]) -> (r: Result<(Ed25519KeyPair, Vec<u8>), AppError>)
    ensures
        r is Ok <==> ed25519_public_of(pkcs8@) is Some,
        r matches Ok(t) ==> ed25519_public_of(pkcs8@) == Some(t.1@) && t.1@.len() == 32,
        r matches Err(e) ==> e == AppError::CryptoError,
{
    match Ed25519KeyPair::from_pkcs8(pkcs8) {
        Ok(key_pair) => {
            let public = key_pair.public_key().as_ref().to_vec();
            Ok((key_pair, public))
        },
        Err(_) => Err(AppError::CryptoError),
    }
}

/// Relies on `rsa::pkcs1::DecodeRsaPublicKey::from_pkcs1_der` and
/// `rsa::RsaPublicKey::encrypt` with `Pkcs1v15Encrypt` padding and
/// `rand::thread_rng`: the call succeeds exactly when the key parses and
/// the payload fits the modulus minus 11 bytes — the random padding bytes
/// never decide it — and pads the ciphertext to the modulus length. The
/// padding is randomized, so nothing ties two calls together; of every
/// successful outcome, PKCS#1 v1.5 decryption under a sound private key
/// matching `pub_der` recovers exactly `key`.
#[verifier::external_body]
fn rsa_wrap_key(pub_der: &[u8], key: &[u8]) -> (r: Result<Vec<u8>, AppError>)
    ensures
        r is Ok <==> rsa_wrap_accepts(pub_der@, key@.len() as int),
        r matches Ok(c) ==> c@.len() == rsa_mod_len(pub_der@),
        r matches Ok(c) ==> forall|priv_der: Seq<u8>|
            rsa_sound_keypair(priv_der) && rsa_public_der_of(priv_der) == Some(pub_der@)
                ==> #[trigger] rsa_unwrap(priv_der, c@) == Some(key@),
        r matches Err(e) ==> e == AppError::CryptoError,
{
    let public_key = rsa::RsaPublicKey::from_pkcs1_der(pub_der).map_err(
        |_| AppError::CryptoError,
    )?;
    let mut rng = rand::thread_rng();
    public_key.encrypt(&mut rng, rsa::Pkcs1v15Encrypt, key).map_err(|_| AppError::CryptoError)
}

/// Relies on `rsa::pkcs8::DecodePrivateKey::from_pkcs8_der` and
/// `rsa::RsaPrivateKey::decrypt` with `Pkcs1v15Encrypt` padding: both are
/// deterministic, and the call succeeds exactly when the private key parses
/// and the blob decrypts to a correctly padded message.
#[verifier::external_body]
fn rsa_unwrap_key(priv_der: &[u8], wrapped: &[u8]) -> (r: Result<Vec<u8>, AppError>)
    ensures
        r is Ok <==> rsa_unwrap(priv_der@, wrapped@) is Some,
        r matches Ok(k) ==> rsa_unwrap(priv_der@, wrapped@) == Some(k@),
        r matches Err(e) ==> e == AppError::CryptoError,
{
    let private_key = rsa::RsaPrivateKey::from_pkcs8_der(priv_der).map_err(
        |_| AppError::CryptoError,
    )?;
    private_key.decrypt(rsa::Pkcs1v15Encrypt, wrapped).map_err(|_| AppError::CryptoError)
}

/// Relies on `bip39::Mnemonic::from_entropy` (which accepts 16 bytes of
/// entropy), its `Display` rendering (the words joined by single spaces),
/// `Mnemonic::parse_in_normalized` (which re-reads that rendering as the
/// same mnemonic) and `Mnemonic::to_seed` with an empty passphrase: the
/// returned phrase is the wordlist encoding of the given entropy and
/// re-derives exactly the returned 64-byte seed.
#[verifier::external_body]
fn mnemonic_from_entropy(entropy: &[u8]) -> (r: (String, Vec<u8>))
    requires
        entropy@.len() == 16,
    ensures
        r.0@ == phrase_of_entropy(entropy@),
        phrase_seed(r.0@) == Some(r.1@),
        r.1@.len() == 64,
{
    let mnemonic = bip39::Mnemonic::from_entropy(entropy).expect("entropy length is valid");
    let phrase = mnemonic.to_string();
    let seed = mnemonic.to_seed("");
    (phrase, seed.to_vec())
}

/// Relies on `bip39::Mnemonic::parse_in_normalized` with the English
/// wordlist and `Mnemonic::to_seed` with an empty passphrase: parsing
/// succeeds exactly on valid phrases and seed derivation is deterministic.
#[verifier::external_body]
fn phrase_to_seed(phrase: &str) -> (r: Result<Vec<u8>, AppError>)
    ensures
        r is Ok <==> phrase_seed(phrase@) is Some,
        r matches Ok(s) ==> phrase_seed(phrase@) == Some(s@) && s@.len() == 64,
        r matches Err(e) ==> e == AppError::CryptoError,
{
    let mnemonic = bip39::Mnemonic::parse_in_normalized(bip39::Language::English, phrase)
        .map_err(|_| AppError::CryptoError)?;
    Ok(mnemonic.to_seed("").to_vec())
}

/// Round-trip law for the symmetric cipher: an envelope assembled from a
/// nonce and the sealed form of `msg`, as `encrypt_message` assembles it,
/// decrypts back to `msg` under the same key.
pub proof fn lemma_encrypt_decrypt_round_trip(
    key: Seq<u8>,
    nonce: Seq<u8>,
    msg: Seq<u8>,
    env: Seq<u8>,
)
    requires
        key.len() == 32,
        nonce.len() == 12,
        env == nonce + gcm_seal(key, nonce, msg),
        gcm_seal(key, nonce, msg).len() == msg.len() + 16,
        gcm_open(key, nonce, gcm_seal(key, nonce, msg)) == Some(msg),
    ensures
        decrypt_spec(key, env) == Some(msg),
{
    assert(env.len() == msg.len() + 28);
    assert(env.subrange(0, 12) =~= nonce);
    assert(env.subrange(12, env.len() as int) =~= gcm_seal(key, nonce, msg));
}

/// `priv_der` (PKCS#8 DER) is the private half of a sound keypair whose
/// public half has the PKCS#1 DER encoding `pub_der`.
pub open spec fn matching_keypair(pub_der: Seq<u8>, priv_der: Seq<u8>) -> bool {
    rsa_sound_keypair(priv_der) && rsa_public_der_of(priv_der) == Some(pub_der)
}

/// Round-trip law for key wrapping: a blob that wraps `key` for a public
/// key unwraps back to `key` under any matching private key.
pub proof fn lemma_wrap_unwrap_round_trip(
    pub_der: Seq<u8>,
    priv_der: Seq<u8>,
    key: Seq<u8>,
    wrapped: Seq<u8>,
)
    requires
        wraps_key_for(pub_der, key, wrapped),
        matching_keypair(pub_der, priv_der),
    ensures
        rsa_unwrap(priv_der, wrapped) == Some(key),
{
    assert(rsa_unwrap(priv_der, wrapped) == Some(key));
}

/// Determinism law for key recovery: a valid phrase yields one derived key;
/// two successful derivations from the same phrase agree.
pub proof fn lemma_mnemonic_key_deterministic(phrase: Seq<char>, k1: Seq<char>, k2: Seq<char>)
    requires
        key_of_phrase(phrase) == Some(k1),
        key_of_phrase(phrase) == Some(k2),
    ensures
        k1 == k2,
{
}

/// The cryptographic core: per-user identity keys, per-message symmetric
/// keys, authenticated encryption of payloads, key wrapping for recipients,
/// and phrase-based key recovery.
pub struct Crypto;

impl Crypto {
    /// Generates a fresh Ed25519 signing keypair. Returns the keypair
    /// itself, the PKCS#8-encoded private key (83 bytes) and the raw public
    /// key (32 bytes), the latter being exactly the public half held in the
    /// former.
    pub fn generate_keys() -> (r: Result<(Ed25519KeyPair, Vec<u8>, Vec<u8>), AppError>)
        ensures
            r matches Ok(t) ==> {
                &&& t.1@.len() == 83
                &&& t.2@.len() == 32
                &&& ed25519_public_of(t.1@) == Some(t.2@)
            },
            r matches Err(e) ==> e == AppError::CryptoError,
    {
        let pkcs8_bytes = ed25519_generate_pkcs8()?;
        let (key_pair, public_key) = ed25519_parse_keypair(pkcs8_bytes.as_slice())?;
        Ok((key_pair, pkcs8_bytes, public_key))
    }

    /// Draws a fresh 256-bit AES key from the system entropy source.
    pub fn generate_symmetric_key() -> (r: Result<Vec<u8>, AppError>)
        ensures
            r matches Ok(k) ==> k@.len() == 32,
            r matches Err(e) ==> e == AppError::CryptoError,
    {
        fill_random(32)
    }

    /// Encrypts `message` under a 32-byte key with AES-256-GCM and a fresh
    /// random 12-byte nonce. Returns the ciphertext envelope (nonce, then
    /// ciphertext, then tag) together with the nonce; the envelope decrypts
    /// back to `message` under the same key.
    pub fn encrypt_message(message: &[u8], key: &[u8]) -> (r: Result<
        (Vec<u8>, Vec<u8>),
        AppError,
    >)
        ensures
            key@.len() != 32 ==> r is Err,
            r matches Ok(t) ==> {
                &&& t.1@.len() == 12
                &&& t.0@ == t.1@ + gcm_seal(key@, t.1@, message@)
                &&& t.0@.len() == message@.len() + 28
                &&& decrypt_spec(key@, t.0@) == Some(message@)
            },
            r matches Err(e) ==> e == AppError::CryptoError,
    {
        if key.len() != 32 {
            return Err(AppError::CryptoError);
        }
        let nonce = fill_random(12)?;
        let sealed = gcm_seal_bytes(key, nonce.as_slice(), message)?;
        let envelope = concat_bytes(nonce.as_slice(), sealed.as_slice());
        proof {
            lemma_encrypt_decrypt_round_trip(key@, nonce@, message@, envelope@);
        }
        Ok((envelope, nonce))
    }

    /// Decrypts a ciphertext envelope produced by `encrypt_message`: the
    /// first 12 bytes are the nonce, the rest is the sealed payload. Returns
    /// exactly the plaintext the envelope opens to, and fails when the key is
    /// not 32 bytes, the envelope is shorter than 28 bytes, or the tag does
    /// not verify — tampering is never returned as wrong plaintext.
    pub fn decrypt_message(encrypted_message: &[u8], key: &[u8]) -> (r: Result<Vec<u8>, AppError>)
        ensures
            r is Ok <==> decrypt_spec(key@, encrypted_message@) is Some,
            r matches Ok(m) ==> decrypt_spec(key@, encrypted_message@) == Some(m@),
            r matches Err(e) ==> e == AppError::CryptoError,
    {
        if key.len() != 32 {
            return Err(AppError::CryptoError);
        }
        if encrypted_message.len() < 28 {
            return Err(AppError::CryptoError);
        }
        let (nonce, sealed) = encrypted_message.split_at(12);
        match gcm_open_bytes(key, nonce, sealed) {
            Some(plaintext) => Ok(plaintext),
            None => Err(AppError::CryptoError),
        }
    }

    /// Wraps a symmetric key for a recipient: encrypts it under the
    /// recipient's PKCS#1 DER public key with RSA PKCS#1 v1.5 padding.
    /// Succeeds exactly when the public key parses and the key fits the
    /// modulus minus 11 bytes (with a 32-byte key and RSA of 2048 bits or
    /// more, always), and then returns a blob of the modulus length. The
    /// padding is randomized, but every successful result unwraps back to
    /// `symmetric_key` under any sound private key matching the public key.
    pub fn encrypt_symmetric_key(symmetric_key: &[u8], recipient_public_key: &[u8]) -> (r: Result<
        Vec<u8>,
        AppError,
    >)
        ensures
            r is Ok <==> rsa_wrap_accepts(recipient_public_key@, symmetric_key@.len() as int),
            r matches Ok(c) ==> c@.len() == rsa_mod_len(recipient_public_key@),
            r matches Ok(c) ==> wraps_key_for(recipient_public_key@, symmetric_key@, c@),
            r matches Err(e) ==> e == AppError::CryptoError,
    {
        rsa_wrap_key(recipient_public_key, symmetric_key)
    }

    /// Unwraps a wrapped symmetric key under a PKCS#8 DER private key with
    /// RSA PKCS#1 v1.5 padding. Deterministic: succeeds exactly when the
    /// private key parses and the blob decrypts under it, and then returns
    /// the wrapped key.
    pub fn decrypt_symmetric_key(encrypted_symmetric_key: &[u8], private_key: &[u8]) -> (r: Result<
        Vec<u8>,
        AppError,
    >)
        ensures
            r is Ok <==> rsa_unwrap(private_key@, encrypted_symmetric_key@) is Some,
            r matches Ok(k) ==> rsa_unwrap(private_key@, encrypted_symmetric_key@) == Some(k@),
            r matches Err(e) ==> e == AppError::CryptoError,
    {
        rsa_unwrap_key(private_key, encrypted_symmetric_key)
    }

    /// Generates a fresh recovery phrase and derives its key: the first 32
    /// bytes of the phrase's seed, in hexadecimal. The phrase re-derives
    /// exactly the returned key, so `mnemonic_to_key` on the phrase returns
    /// it again. The phrase encodes 16 bytes of entropy — the smallest
    /// buffer the BIP-39 wordlist encoding admits (its 128-bit minimum,
    /// giving 12 words); a smaller draw cannot be encoded as a phrase.
    pub fn generate_mnemonic() -> (r: Result<(String, String), AppError>)
        ensures
            r matches Ok(t) ==> key_of_phrase(t.0@) == Some(t.1@) && t.1@.len() == 64,
            r matches Ok(t) ==> exists|e: Seq<u8>|
                e.len() == 16 && t.0@ == #[trigger] phrase_of_entropy(e),
            r matches Err(e) ==> e == AppError::CryptoError,
    {
        let entropy = fill_random(16)?;
        let (phrase, seed) = mnemonic_from_entropy(entropy.as_slice());
        proof {
            assert(entropy@.len() == 16 && phrase@ == phrase_of_entropy(entropy@));
        }
        let (head, _) = seed.as_slice().split_at(32);
        let encryption_key = hex_string(head);
        Ok((phrase, encryption_key))
    }

    /// Re-derives the key of a recovery phrase: the first 32 bytes of the
    /// phrase's BIP-39 seed (empty passphrase), as 64 characters of
    /// hexadecimal. Succeeds exactly on valid phrases — known words, a
    /// valid word count and a valid checksum — and is deterministic in the
    /// phrase.
    pub fn mnemonic_to_key(mnemonic_phrase: &str) -> (r: Result<String, AppError>)
        ensures
            r is Ok <==> key_of_phrase(mnemonic_phrase@) is Some,
            r matches Ok(k) ==> key_of_phrase(mnemonic_phrase@) == Some(k@),
            r matches Ok(k) ==> k@.len() == 64,
            r matches Err(e) ==> e == AppError::CryptoError,
    {
        let seed = phrase_to_seed(mnemonic_phrase)?;
        let (head, _) = seed.as_slice().split_at(32);
        let encryption_key = hex_string(head);
        Ok(encryption_key)
    }
}

} // verus!
