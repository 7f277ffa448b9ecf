//! Ed25519 keys, signatures and random secrets, through `ed25519-dalek`
//! and `rand`. Keys and signatures are handled as plain bytes: a secret
//! key is 32 bytes, a public key 32 bytes, a signature 64 bytes.
use vstd::prelude::*;
use ed25519_dalek::{Signature, Signer, SigningKey, Verifier, VerifyingKey};
use ed25519_dalek::ed25519::signature::Error as SignatureError;
use rand::rngs::OsRng;
use rand::RngCore;

verus! {

#[verifier::external_type_specification]
#[verifier::external_body]
pub struct ExSignatureError(SignatureError);

#[verifier::external_type_specification]
#[verifier::external_body]
pub struct ExRandError(rand::Error);

/// The public key that `ed25519-dalek` derives from a 32-byte secret key.
pub uninterp spec fn ed25519_public_key(secret: Seq<u8>) -> Seq<u8>;

/// The signature that `ed25519-dalek` makes of a message with a secret key
/// (Ed25519 signing is deterministic).
pub uninterp spec fn ed25519_signature(secret: Seq<u8>, message: Seq<u8>) -> Seq<u8>;

/// Whether 32 bytes decode to a point that `ed25519-dalek` accepts as a
/// public key.
pub uninterp spec fn ed25519_key_decodes(public_key: Seq<u8>) -> bool;

/// Whether `ed25519-dalek`'s verification accepts a signature of a message
/// under a public key.
pub uninterp spec fn ed25519_accepts(public_key: Seq<u8>, message: Seq<u8>, signature: Seq<u8>) -> bool;

/// Whether a signature was made of `message` with the secret key that
/// belongs to `public_key`.
pub open spec fn signed_by(public_key: Seq<u8>, message: Seq<u8>, signature: Seq<u8>) -> bool {
    exists|secret: Seq<u8>|
        secret.len() == 32 && ed25519_public_key(secret) == public_key && #[trigger] ed25519_signature(
            secret,
            message,
        ) == signature
}

/// Whether 32 bytes are the public key of some secret key.
pub open spec fn derived_public_key(public_key: Seq<u8>) -> bool {
    exists|secret: Seq<u8>| secret.len() == 32 && #[trigger] ed25519_public_key(secret) == public_key
}

/// Whether a signature is valid: the public key decodes and the signature
/// verifies under it.
pub open spec fn signature_valid(public_key: Seq<u8>, message: Seq<u8>, signature: Seq<u8>) -> bool {
    ed25519_key_decodes(public_key) && ed25519_accepts(public_key, message, signature)
}

/// Fills 32 bytes from the operating system's random source
/// (`RngCore::try_fill_bytes` of `rand`'s `OsRng`). The bytes are random:
/// nothing is stated of them, nor of when the source fails.
#[verifier::external_body]
pub(crate) fn random_secret() -> (r: Result<[u8; 32], rand::Error>) {
    let mut bytes = [0u8; 32];
    match OsRng.try_fill_bytes(&mut bytes) {
        Ok(()) => Ok(bytes),
        Err(e) => Err(e),
    }
}

/// The public key of a secret key: `SigningKey::from_bytes(secret)
/// .verifying_key().to_bytes()`. The result is named, not described; it is
/// stated that it decodes again as a public key (it is the compressed
/// form of a curve point, which `VerifyingKey::from_bytes` decompresses).
#[verifier::external_body]
pub(crate) fn derive_public_key(secret: &[u8; 32]) -> (p: [u8; 32])
    ensures
        p@ == ed25519_public_key(secret@),
        ed25519_key_decodes(p@),
{
    SigningKey::from_bytes(secret).verifying_key().to_bytes()
}

/// Whether 32 bytes decode to a public key:
/// `VerifyingKey::from_bytes(public_key).is_ok()`. Beyond the name, it
/// states that the public key of a secret key decodes.
#[verifier::external_body]
pub(crate) fn key_decodes(public_key: &[u8; 32]) -> (b: bool)
    ensures
        b == ed25519_key_decodes(public_key@),
        !b ==> !derived_public_key(public_key@),
{
    VerifyingKey::from_bytes(public_key).is_ok()
}

/// Whether 32 bytes are the encoding of a public key. The public key of
/// every secret key is.
pub fn public_key_decodes(public_key: &[u8; 32]) -> (b: bool)
    ensures
        b == ed25519_key_decodes(public_key@),
        derived_public_key(public_key@) ==> b,
{
    key_decodes(public_key)
}

/// Signs a message: `SigningKey::from_bytes(secret).sign(message)`, as
/// bytes. The result is named, not described.
#[verifier::external_body]
pub(crate) fn sign_message(secret: &[u8; 32], message: &[u8]) -> (s: [u8; 64])
    ensures
        s@ == ed25519_signature(secret@, message@),
{
    SigningKey::from_bytes(secret).sign(message).to_bytes()
}

/// Verifies a signature: `VerifyingKey::from_bytes(public_key)`, then
/// `Verifier::verify` of the message against `Signature::from_bytes(signature)`.
/// The error is that of a public key that does not decode. Beyond the
/// names, it states what the crate documents of honest use: the public key
/// derived from a secret key decodes, and a signature made with that
/// secret key verifies under it.
#[verifier::external_body]
pub(crate) fn verify_message(
    public_key: &[u8; 32],
    message: &[u8],
    signature: &[u8; 64],
) -> (r: Result<bool, SignatureError>)
    ensures
        r is Ok <==> ed25519_key_decodes(public_key@),
        r matches Ok(b) ==> b == ed25519_accepts(public_key@, message@, signature@),
        r is Err ==> !signed_by(public_key@, message@, signature@),
        r matches Ok(b) ==> (signed_by(public_key@, message@, signature@) ==> b),
{
    match VerifyingKey::from_bytes(public_key) {
        Ok(key) => Ok(key.verify(message, &Signature::from_bytes(signature)).is_ok()),
        Err(e) => Err(e),
    }
}

/// Checks a signature from plain bytes: `Some(valid)` when the public key
/// decodes, `None` when it does not. A signature made with the secret key
/// of the public key is always valid.
pub fn check_signature(
    public_key: &[u8; 32],
    message: &[u8],
    signature: &[u8; 64],
) -> (r: Option<bool>)
    ensures
        r is Some <==> ed25519_key_decodes(public_key@),
        r matches Some(b) ==> b == ed25519_accepts(public_key@, message@, signature@),
        signed_by(public_key@, message@, signature@) ==> r == Some(true),
{
    match verify_message(public_key, message, signature) {
        Ok(b) => Some(b),
        Err(_) => None,
    }
}

/// A client's Ed25519 identity: its 32-byte secret key.
pub struct ClientIdentity {
    secret: [u8; 32],
}

/// Why a new identity could not be made.
pub enum IdentityError {
    /// The operating system's random source failed.
    RandomSourceFailed,
}

impl ClientIdentity {
    /// The secret key.
    pub closed spec fn secret_bytes(&self) -> Seq<u8> {
        self.secret@
    }

    /// An identity with a fresh random secret key.
    pub fn generate() -> (r: Result<ClientIdentity, IdentityError>)
        ensures
            r matches Ok(id) ==> id.secret_bytes().len() == 32,
    {
        match random_secret() {
            Ok(secret) => Ok(ClientIdentity { secret }),
            Err(_) => Err(IdentityError::RandomSourceFailed),
        }
    }

    /// The identity of a given secret key.
    pub fn from_secret(secret: [u8; 32]) -> (id: ClientIdentity)
        ensures
            id.secret_bytes() == secret@,
    {
        ClientIdentity { secret }
    }

    /// The public key that others verify this identity's signatures with.
    pub fn public_key(&self) -> (p: [u8; 32])
        ensures
            p@ == ed25519_public_key(self.secret_bytes()),
            ed25519_key_decodes(p@),
    {
        derive_public_key(&self.secret)
    }

    /// Signs a message with this identity's secret key.
    pub fn sign(&self, message: &[u8]) -> (s: [u8; 64])
        ensures
            s@ == ed25519_signature(self.secret_bytes(), message@),
            signed_by(ed25519_public_key(self.secret_bytes()), message@, s@),
    {
        let s = sign_message(&self.secret, message);
        assert(ed25519_signature(self.secret@, message@) == s@);
        s
    }
}

/// What an identity signs is signed by it: for every secret key and
/// message, the signature made with the key is `signed_by` its public key.
pub proof fn law_own_signature_is_signed_by(secret: Seq<u8>, message: Seq<u8>)
    requires
        secret.len() == 32,
    ensures
        signed_by(ed25519_public_key(secret), message, ed25519_signature(secret, message)),
{
}

} // verus!
