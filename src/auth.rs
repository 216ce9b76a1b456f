use vstd::prelude::*;
use ed25519_dalek::{Signature, Signer, SigningKey, Verifier, VerifyingKey};
use crate::error::ToolError;

verus! {

/// The two authentication schemes.
#[derive(Clone, Copy, Debug, PartialEq, Eq, Structural)]
pub enum TextSignFormat {
    /// BLAKE3 in keyed mode: a symmetric MAC with a 32-byte key and a 32-byte tag.
    Blake3,
    /// Ed25519: a 32-byte private key, a 32-byte public key and a 64-byte signature.
    Ed25519,
}

/// The length of every key: a MAC secret, an Ed25519 private or public key.
pub const KEY_LEN: usize = 32;

/// The length of a keyed BLAKE3 tag.
pub const MAC_TAG_LEN: usize = 32;

/// The length of an Ed25519 signature.
pub const ED25519_SIGNATURE_LEN: usize = 64;

/// The keyed BLAKE3 tag of `content` under `key`.
pub uninterp spec fn keyed_mac(key: Seq<u8>, content: Seq<u8>) -> Seq<u8>;

/// The Ed25519 public key derived from the private key `secret`.
pub uninterp spec fn ed25519_public(secret: Seq<u8>) -> Seq<u8>;

/// The Ed25519 signature of `content` under the private key `secret`.
pub uninterp spec fn ed25519_sign(secret: Seq<u8>, content: Seq<u8>) -> Seq<u8>;

/// What Ed25519 verification decides: `None` where `public` is no point of the curve,
/// otherwise whether `signature` is valid for `content`.
pub uninterp spec fn ed25519_verdict(public: Seq<u8>, content: Seq<u8>, signature: Seq<u8>) -> Option<bool>;

/// Relies on `blake3::keyed_hash`: a 32-byte tag that depends on the key and content alone.
#[verifier::external_body]
fn blake3_keyed_hash(key: &[u8], content: &[u8]) -> (r: Vec<u8>)
    requires
        key@.len() == KEY_LEN,
    ensures
        r@ == keyed_mac(key@, content@),
        r@.len() == 32,
{
    let key: &[u8; 32] = key.try_into().unwrap();
    blake3::keyed_hash(key, content).as_bytes().to_vec()
}

/// Relies on the `PartialEq<[u8]>` impl of `blake3::Hash`, which compares a tag with a
/// byte slice in constant time.
#[verifier::external_body]
fn blake3_tag_eq(tag: &[u8], other: &[u8]) -> (r: bool)
    requires
        tag@.len() == 32,
    ensures
        r == (tag@ == other@),
{
    let tag: [u8; 32] = tag.try_into().unwrap();
    blake3::Hash::from_bytes(tag) == *other
}

/// Relies on `ed25519_dalek::SigningKey::from_bytes` and `SigningKey::verifying_key`:
/// the public key is derived from the private key alone.
#[verifier::external_body]
pub(crate) fn ed25519_public_key(secret: &[u8]) -> (r: Vec<u8>)
    requires
        secret@.len() == KEY_LEN,
    ensures
        r@ == ed25519_public(secret@),
        r@.len() == 32,
{
    let secret: &[u8; 32] = secret.try_into().unwrap();
    SigningKey::from_bytes(secret).verifying_key().to_bytes().to_vec()
}

/// Relies on `Signer::sign` of `ed25519_dalek::SigningKey`: deterministic Ed25519
/// signing, a 64-byte signature.
#[verifier::external_body]
fn ed25519_signature(secret: &[u8], content: &[u8]) -> (r: Vec<u8>)
    requires
        secret@.len() == KEY_LEN,
    ensures
        r@ == ed25519_sign(secret@, content@),
        r@.len() == 64,
{
    let secret: &[u8; 32] = secret.try_into().unwrap();
    SigningKey::from_bytes(secret).sign(content).to_bytes().to_vec()
}

/// Relies on `ed25519_dalek::VerifyingKey::from_bytes`, which fails where the bytes are
/// no curve point, and on `Verifier::verify` of `VerifyingKey`. A signature made by
/// `SigningKey::sign` verifies under the public key of the same private key, and a public
/// key derived from a private key is always a curve point.
#[verifier::external_body]
fn ed25519_check(public: &[u8], content: &[u8], signature: &[u8]) -> (r: Option<bool>)
    requires
        public@.len() == KEY_LEN,
        signature@.len() == ED25519_SIGNATURE_LEN,
    ensures
        r == ed25519_verdict(public@, content@, signature@),
        forall|secret: Seq<u8>|
            secret.len() == 32 && public@ == #[trigger] ed25519_public(secret) ==> r is Some,
        forall|secret: Seq<u8>|
            secret.len() == 32 && public@ == ed25519_public(secret) && signature@
                == ed25519_sign(secret, content@) ==> r == Some(true),
{
    let public: &[u8; 32] = public.try_into().unwrap();
    let signature: &[u8; 64] = signature.try_into().unwrap();
    match VerifyingKey::from_bytes(public) {
        Ok(key) => Some(key.verify(content, &Signature::from_bytes(signature)).is_ok()),
        Err(_) => None,
    }
}

/// The length of a signature of `format`.
pub open spec fn signature_len(format: TextSignFormat) -> nat {
    match format {
        TextSignFormat::Blake3 => MAC_TAG_LEN as nat,
        TextSignFormat::Ed25519 => ED25519_SIGNATURE_LEN as nat,
    }
}

/// The key that verifies what the signing key `secret` signs.
pub open spec fn public_of(format: TextSignFormat, secret: Seq<u8>) -> Seq<u8> {
    match format {
        TextSignFormat::Blake3 => secret,
        TextSignFormat::Ed25519 => ed25519_public(secret),
    }
}

/// What signing `content` with `key` gives.
pub open spec fn signature_of(format: TextSignFormat, key: Seq<u8>, content: Seq<u8>) -> Result<
    Seq<u8>,
    ToolError,
> {
    if key.len() != KEY_LEN {
        Err(ToolError::Key)
    } else {
        match format {
            TextSignFormat::Blake3 => Ok(keyed_mac(key, content)),
            TextSignFormat::Ed25519 => Ok(ed25519_sign(key, content)),
        }
    }
}

/// What verifying `signature` over `content` with `key` gives. A signature whose length
/// is not the scheme's is malformed (`Encoding`); one of the right length that does not
/// match is `Ok(false)`.
pub open spec fn verdict_of(
    format: TextSignFormat,
    key: Seq<u8>,
    content: Seq<u8>,
    signature: Seq<u8>,
) -> Result<bool, ToolError> {
    if key.len() != KEY_LEN {
        Err(ToolError::Key)
    } else {
        if signature.len() != signature_len(format) {
            Err(ToolError::Encoding)
        } else {
            match format {
                TextSignFormat::Blake3 => Ok(signature == keyed_mac(key, content)),
                TextSignFormat::Ed25519 => match ed25519_verdict(key, content, signature) {
                    Some(valid) => Ok(valid),
                    None => Err(ToolError::Key),
                },
            }
        }
    }
}

pub open spec fn same_bytes_result(r: Result<Vec<u8>, ToolError>, s: Result<Seq<u8>, ToolError>) -> bool {
    match r {
        Ok(v) => s == Ok::<Seq<u8>, ToolError>(v@),
        Err(e) => s == Err::<Seq<u8>, ToolError>(e),
    }
}

/// Signs `content` with `key`: the keyed BLAKE3 tag, or the Ed25519 signature under the
/// private key. A key that is not 32 bytes long gives `Key`.
pub fn sign(format: TextSignFormat, key: &[u8], content: &[u8]) -> (r: Result<Vec<u8>, ToolError>)
    ensures
        same_bytes_result(r, signature_of(format, key@, content@)),
        r is Ok ==> r->Ok_0@.len() == signature_len(format),
{
    if key.len() != KEY_LEN {
        return Err(ToolError::Key);
    }
    match format {
        TextSignFormat::Blake3 => Ok(blake3_keyed_hash(key, content)),
        TextSignFormat::Ed25519 => Ok(ed25519_signature(key, content)),
    }
}

/// Verifies `signature` over `content` with `key` (the MAC key, or the Ed25519 public
/// key). A mismatch is `Ok(false)`; a structurally invalid key or signature is an error.
pub fn verify(format: TextSignFormat, key: &[u8], content: &[u8], signature: &[u8]) -> (r: Result<
    bool,
    ToolError,
>)
    ensures
        r == verdict_of(format, key@, content@, signature@),
        // under a key that belongs to a signing key, a signature of the right length is
        // never an error
        forall|secret: Seq<u8>|
            secret.len() == KEY_LEN && key@ == #[trigger] public_of(format, secret) && key@.len()
                == KEY_LEN && signature@.len() == signature_len(format) ==> r is Ok,
        // what a signing key signs verifies under the key that belongs to it
        forall|secret: Seq<u8>|
            secret.len() == KEY_LEN && key@ == public_of(format, secret) && key@.len() == KEY_LEN
                && signature@.len() == signature_len(format) && signature_of(
                format,
                secret,
                content@,
            ) == Ok::<Seq<u8>, ToolError>(signature@) ==> r == Ok::<bool, ToolError>(true),
{
    if key.len() != KEY_LEN {
        return Err(ToolError::Key);
    }
    let expected_len = match format {
        TextSignFormat::Blake3 => MAC_TAG_LEN,
        TextSignFormat::Ed25519 => ED25519_SIGNATURE_LEN,
    };
    if signature.len() != expected_len {
        return Err(ToolError::Encoding);
    }
    match format {
        TextSignFormat::Blake3 => {
            let tag = blake3_keyed_hash(key, content);
            Ok(blake3_tag_eq(&tag, signature))
        },
        TextSignFormat::Ed25519 => {
            match ed25519_check(key, content, signature) {
                Some(valid) => Ok(valid),
                None => Err(ToolError::Key),
            }
        },
    }
}

} // verus!
