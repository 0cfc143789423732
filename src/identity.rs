//! The node's long-lived Ed25519 identity and its hex Node ID.

use vstd::prelude::*;
use ed25519_dalek::{Signer, Verifier};
use zeroize::Zeroize;

verus! {

/// Length of an Ed25519 secret key and of a public key, in bytes.
pub const KEY_LENGTH: usize = 32;

/// The Ed25519 public key of a 32-byte secret key.
pub uninterp spec fn ed25519_public_key(secret: Seq<u8>) -> Seq<u8>;

/// The Ed25519 signature of `message` under a 32-byte secret key.
pub uninterp spec fn ed25519_signature(secret: Seq<u8>, message: Seq<u8>) -> Seq<u8>;

/// Whether `signature` over `message` checks against `public_key`.
pub uninterp spec fn ed25519_accepts(message: Seq<u8>, signature: Seq<u8>, public_key: Seq<u8>) -> bool;

/// Length of an Ed25519 signature, in bytes.
pub const SIGNATURE_LENGTH: usize = 64;

/// Whether `signature` over `message` checks against `public_key`: a
/// 64-byte signature, a 32-byte key, and Ed25519 accepts them.
pub open spec fn signature_checks(message: Seq<u8>, signature: Seq<u8>, public_key: Seq<u8>) -> bool {
    &&& signature.len() == SIGNATURE_LENGTH
    &&& public_key.len() == KEY_LENGTH
    &&& ed25519_accepts(message, signature, public_key)
}

/// Lower-case hex digit of a value below 16.
pub open spec fn hex_digit(d: u8) -> char {
    if d < 10 {
        (48 + d) as char
    } else {
        (87 + d) as char
    }
}

/// Lower-case hex text of `b`, two digits per byte, high nibble first.
pub open spec fn hex_text(b: Seq<u8>) -> Seq<char>
    decreases b.len(),
{
    if b.len() == 0 {
        Seq::empty()
    } else {
        seq![hex_digit(b[0] / 16), hex_digit(b[0] % 16)] + hex_text(b.drop_first())
    }
}

/// Hex text has two characters per byte.
pub proof fn lemma_hex_text_len(b: Seq<u8>)
    ensures
        hex_text(b).len() == 2 * b.len(),
    decreases b.len(),
{
    if b.len() > 0 {
        lemma_hex_text_len(b.drop_first());
    }
}

/// Relies on ed25519_dalek::SigningKey::generate with rand's OsRng: a fresh
/// secret key from the operating system's random source.
#[verifier::external_body]
fn fresh_secret() -> (r: [u8; 32]) {
    ed25519_dalek::SigningKey::generate(&mut rand::rngs::OsRng).to_bytes()
}

/// Relies on ed25519_dalek::SigningKey::verifying_key: the public key of a secret key.
#[verifier::external_body]
fn derive_public_key(secret: &[u8; 32]) -> (r: [u8; 32])
    ensures
        r@ == ed25519_public_key(secret@),
{
    ed25519_dalek::SigningKey::from_bytes(secret).verifying_key().to_bytes()
}

/// Relies on ed25519_dalek::SigningKey::sign: a deterministic Ed25519
/// signature, which checks against the key's own public key.
#[verifier::external_body]
fn sign_bytes(secret: &[u8; 32], message: &[u8]) -> (r: [u8; 64])
    ensures
        r@ == ed25519_signature(secret@, message@),
        ed25519_accepts(message@, r@, ed25519_public_key(secret@)),
{
    ed25519_dalek::SigningKey::from_bytes(secret).sign(message).to_bytes()
}

/// Relies on ed25519_dalek::VerifyingKey::verify, after parsing the signature
/// with Signature::from_slice and the key with VerifyingKey::from_bytes; bytes
/// that do not parse do not check.
#[verifier::external_body]
fn check_signature(message: &[u8], signature: &[u8], public_key: &[u8]) -> (r: bool)
    ensures
        r == ed25519_accepts(message@, signature@, public_key@),
{
    match (ed25519_dalek::Signature::from_slice(signature), <&[u8; 32]>::try_from(public_key)) {
        (Ok(sig), Ok(key)) => match ed25519_dalek::VerifyingKey::from_bytes(key) {
            Ok(key) => key.verify(message, &sig).is_ok(),
            Err(_) => false,
        },
        _ => false,
    }
}

/// Relies on hex::encode: lower-case hex, two digits per byte.
#[verifier::external_body]
fn hex_encode(b: &[u8]) -> (r: String)
    ensures
        r@ == hex_text(b@),
{
    hex::encode(b)
}

/// Relies on zeroize::Zeroize for byte arrays: every byte is overwritten with zero.
#[verifier::external_body]
fn wipe(secret: &mut [u8; 32])
    ensures
        final(secret)@ == Seq::new(32, |i: int| 0u8),
    opens_invariants none
    no_unwind
{
    secret.zeroize();
}

/// The Node ID that goes with `public_key`: its lower-case hex text.
pub fn node_id_for_key(public_key: &[u8]) -> (r: String)
    ensures
        r@ == hex_text(public_key@),
{
    hex_encode(public_key)
}

/// Why a stored identity cannot be used.
#[derive(Debug, Clone, PartialEq, Eq)]
pub enum IdentityError {
    /// The stored key is not 32 bytes long.
    InvalidKeyLength,
}

/// The node's signing identity: a 32-byte Ed25519 secret key.
pub struct NodeIdentity {
    secret: [u8; 32],
}

impl View for NodeIdentity {
    type V = Seq<u8>;

    /// The secret key's bytes.
    closed spec fn view(&self) -> Seq<u8> {
        self.secret@
    }
}

/// The Node ID of the identity with secret key `secret`.
pub open spec fn node_id_of(secret: Seq<u8>) -> Seq<char> {
    hex_text(ed25519_public_key(secret))
}

impl Drop for NodeIdentity {
    /// Wipes the secret key.
    fn drop(&mut self)
        opens_invariants none
        no_unwind
    {
        wipe(&mut self.secret);
    }
}

impl NodeIdentity {
    /// A fresh identity.
    pub fn generate() -> (r: Self)
        ensures
            r@.len() == KEY_LENGTH,
    {
        NodeIdentity { secret: fresh_secret() }
    }

    /// The identity with the given secret key.
    pub fn from_bytes(secret: [u8; 32]) -> (r: Self)
        ensures
            r@ == secret@,
    {
        NodeIdentity { secret }
    }

    /// The identity a key file holds: an empty file stands for none, and a
    /// fresh identity is made; 32 bytes are the secret key; any other length
    /// is refused.
    pub fn load_or_generate(stored: &[u8]) -> (r: Result<Self, IdentityError>)
        ensures
            stored@.len() == 0 ==> (r matches Ok(id) && id@.len() == KEY_LENGTH),
            stored@.len() == KEY_LENGTH ==> (r matches Ok(id) && id@ == stored@),
            stored@.len() != 0 && stored@.len() != KEY_LENGTH ==> r == Err::<Self, IdentityError>(
                IdentityError::InvalidKeyLength,
            ),
    {
        if stored.len() == 0 {
            Ok(Self::generate())
        } else if stored.len() != KEY_LENGTH {
            Err(IdentityError::InvalidKeyLength)
        } else {
            let mut secret = [0u8; 32];
            let mut i: usize = 0;
            while i < KEY_LENGTH
                invariant
                    stored@.len() == KEY_LENGTH,
                    i <= KEY_LENGTH,
                    secret@.len() == KEY_LENGTH,
                    forall|j: int| 0 <= j < i ==> secret@[j] == stored@[j],
                decreases KEY_LENGTH - i,
            {
                secret[i] = stored[i];
                i += 1;
            }
            assert(secret@ =~= stored@);
            Ok(NodeIdentity { secret })
        }
    }

    /// The secret key's bytes, as they are stored.
    pub fn to_bytes(&self) -> (r: [u8; 32])
        ensures
            r@ == self@,
    {
        self.secret
    }

    /// The hex encoding of the public key: 64 lower-case hex characters.
    pub fn node_id(&self) -> (r: String)
        ensures
            r@ == node_id_of(self@),
            r@.len() == 2 * KEY_LENGTH,
    {
        let pk = derive_public_key(&self.secret);
        proof {
            lemma_hex_text_len(pk@);
        }
        hex_encode(&pk)
    }

    pub fn public_key_bytes(&self) -> (r: Vec<u8>)
        ensures
            r@ == ed25519_public_key(self@),
            r@.len() == KEY_LENGTH,
    {
        let pk = derive_public_key(&self.secret);
        let mut out: Vec<u8> = Vec::new();
        crate::octets::append(&mut out, &pk);
        assert(out@ =~= pk@);
        out
    }

    /// The 64-byte signature of `message`.
    pub fn sign(&self, message: &[u8]) -> (r: Vec<u8>)
        ensures
            r@ == ed25519_signature(self@, message@),
            r@.len() == SIGNATURE_LENGTH,
            ed25519_accepts(message@, r@, ed25519_public_key(self@)),
    {
        let sig = sign_bytes(&self.secret, message);
        let mut out: Vec<u8> = Vec::new();
        crate::octets::append(&mut out, &sig);
        assert(out@ =~= sig@);
        out
    }

    /// Whether `signature` over `message` checks against `public_key`; a
    /// signature other than 64 bytes or a key other than 32 bytes gives `false`.
    pub fn verify(message: &[u8], signature: &[u8], public_key: &[u8]) -> (r: bool)
        ensures
            r == signature_checks(message@, signature@, public_key@),
            signature@.len() != SIGNATURE_LENGTH || public_key@.len() != KEY_LENGTH ==> !r,
    {
        if signature.len() != SIGNATURE_LENGTH || public_key.len() != KEY_LENGTH {
            false
        } else {
            check_signature(message, signature, public_key)
        }
    }

    /// Whether `signature` over `message` checks against this identity's key.
    pub fn verify_internal(&self, message: &[u8], signature: &[u8]) -> (r: bool)
        ensures
            r == signature_checks(message@, signature@, ed25519_public_key(self@)),
    {
        let pk = self.public_key_bytes();
        Self::verify(message, signature, pk.as_slice())
    }
}

} // verus!
