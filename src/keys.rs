use vstd::prelude::*;
use rand::RngCore;
use crate::auth::{
    ed25519_public_key, public_of, same_bytes_result, sign, signature_len, signature_of, verdict_of,
    verify, TextSignFormat, KEY_LEN,
};
use crate::error::ToolError;

verus! {

#[verifier::external_type_specification]
#[verifier::external_body]
pub struct ExRandError(rand::Error);

/// Relies on `rand::rngs::OsRng` through `RngCore::try_fill_bytes`: 32 bytes from the
/// operating system's secure random source, or its error.
#[verifier::external_body]
fn os_random_bytes() -> (r: Result<Vec<u8>, rand::Error>)
    ensures
        r is Ok ==> r->Ok_0@.len() == 32,
{
    let mut bytes = [0u8; 32];
    rand::rngs::OsRng.try_fill_bytes(&mut bytes)?;
    Ok(bytes.to_vec())
}

/// Key material for one scheme: a MAC secret, or an Ed25519 key pair.
pub enum KeyMaterial {
    Symmetric { key: Vec<u8> },
    AsymmetricPair { private: Vec<u8>, public: Vec<u8> },
}

impl KeyMaterial {
    pub open spec fn spec_format(&self) -> TextSignFormat {
        match self {
            KeyMaterial::Symmetric { .. } => TextSignFormat::Blake3,
            KeyMaterial::AsymmetricPair { .. } => TextSignFormat::Ed25519,
        }
    }

    /// The bytes that sign: the MAC secret, or the private key.
    pub open spec fn signing_view(&self) -> Seq<u8> {
        match self {
            KeyMaterial::Symmetric { key } => key@,
            KeyMaterial::AsymmetricPair { private, .. } => private@,
        }
    }

    /// The bytes that verify: the MAC secret, or the public key.
    pub open spec fn verifying_view(&self) -> Seq<u8> {
        match self {
            KeyMaterial::Symmetric { key } => key@,
            KeyMaterial::AsymmetricPair { public, .. } => public@,
        }
    }

    /// Both keys have the scheme's length, and the verifying key belongs to the signing key.
    pub open spec fn wf(&self) -> bool {
        &&& self.signing_view().len() == KEY_LEN
        &&& self.verifying_view().len() == KEY_LEN
        &&& self.verifying_view() == public_of(self.spec_format(), self.signing_view())
    }

    /// Builds the key material of `format` from 32 secret bytes: the MAC secret itself,
    /// or an Ed25519 private key and the public key derived from it.
    pub fn from_seed(format: TextSignFormat, seed: &[u8]) -> (r: KeyMaterial)
        requires
            seed@.len() == KEY_LEN,
        ensures
            r.wf(),
            r.spec_format() == format,
            r.signing_view() == seed@,
    {
        match format {
            TextSignFormat::Blake3 => KeyMaterial::Symmetric { key: vstd::slice::slice_to_vec(seed) },
            TextSignFormat::Ed25519 => {
                let public = ed25519_public_key(seed);
                KeyMaterial::AsymmetricPair { private: vstd::slice::slice_to_vec(seed), public }
            },
        }
    }

    pub fn format(&self) -> (r: TextSignFormat)
        ensures
            r == self.spec_format(),
    {
        match self {
            KeyMaterial::Symmetric { .. } => TextSignFormat::Blake3,
            KeyMaterial::AsymmetricPair { .. } => TextSignFormat::Ed25519,
        }
    }

    pub fn signing_key(&self) -> (r: &[u8])
        ensures
            r@ == self.signing_view(),
    {
        match self {
            KeyMaterial::Symmetric { key } => key.as_slice(),
            KeyMaterial::AsymmetricPair { private, .. } => private.as_slice(),
        }
    }

    pub fn verifying_key(&self) -> (r: &[u8])
        ensures
            r@ == self.verifying_view(),
    {
        match self {
            KeyMaterial::Symmetric { key } => key.as_slice(),
            KeyMaterial::AsymmetricPair { public, .. } => public.as_slice(),
        }
    }
}

/// Generates fresh key material of `format` from the operating system's secure random
/// source; `Randomness` where that source fails.
pub fn generate(format: TextSignFormat) -> (r: Result<KeyMaterial, ToolError>)
    ensures
        match r {
            Ok(k) => k.wf() && k.spec_format() == format,
            Err(e) => e == ToolError::Randomness,
        },
{
    match os_random_bytes() {
        Ok(seed) => Ok(KeyMaterial::from_seed(format, seed.as_slice())),
        Err(_) => Err(ToolError::Randomness),
    }
}

/// Signs `content` with the signing half of `key`; `Key` where `key` belongs to another
/// scheme than `format`.
pub fn sign_with_key(format: TextSignFormat, key: &KeyMaterial, content: &[u8]) -> (r: Result<
    Vec<u8>,
    ToolError,
>)
    ensures
        key.spec_format() != format ==> r == Err::<Vec<u8>, ToolError>(ToolError::Key),
        key.spec_format() == format ==> same_bytes_result(
            r,
            signature_of(format, key.signing_view(), content@),
        ),
        r is Ok ==> r->Ok_0@.len() == signature_len(format),
{
    if key.format() != format {
        return Err(ToolError::Key);
    }
    sign(format, key.signing_key(), content)
}

/// Verifies `signature` over `content` with the verifying half of `key`; `Key` where `key`
/// belongs to another scheme than `format`.
pub fn verify_with_key(
    format: TextSignFormat,
    key: &KeyMaterial,
    content: &[u8],
    signature: &[u8],
) -> (r: Result<bool, ToolError>)
    ensures
        key.spec_format() != format ==> r == Err::<bool, ToolError>(ToolError::Key),
        key.spec_format() == format ==> r == verdict_of(
            format,
            key.verifying_view(),
            content@,
            signature@,
        ),
        // under a well-formed key, a signature of the right length is never an error
        key.wf() && key.spec_format() == format && signature@.len() == signature_len(format)
            ==> r is Ok,
        // what a well-formed key signs, it verifies
        key.wf() && key.spec_format() == format && signature@.len() == signature_len(format)
            && signature_of(format, key.signing_view(), content@) == Ok::<Seq<u8>, ToolError>(
            signature@,
        ) ==> r == Ok::<bool, ToolError>(true),
{
    if key.format() != format {
        return Err(ToolError::Key);
    }
    let r = verify(format, key.verifying_key(), content, signature);
    assert(key.wf() && key.spec_format() == format ==> key.signing_view().len() == KEY_LEN);
    r
}

} // verus!
