//! PKCE (Proof Key for Code Exchange) generation and binding.
//!
//! A login attempt draws a random code verifier, derives its challenge as the
//! URL-safe base64 encoding of the verifier's SHA-256 digest, and must use
//! the byte-identical verifier at token-exchange time. The challenge
//! derivation is named abstractly (`sha256_of`, `b64url_of`): the digests are
//! computed by outside crates and only their composition is reasoned about.

use vstd::prelude::*;

use base64::Engine;
use sha2::Digest;

verus! {

/// The SHA-256 digest of the input bytes. A function of the input alone.
pub uninterp spec fn sha256_of(input: Seq<u8>) -> Seq<u8>;

/// The unpadded URL-safe base64 encoding of the input bytes. A function of
/// the input alone.
pub uninterp spec fn b64url_of(input: Seq<u8>) -> Seq<u8>;

/// True of the bytes the unpadded URL-safe base64 alphabet uses:
/// `A`-`Z`, `a`-`z`, `0`-`9`, `-` and `_`.
pub open spec fn is_b64url_byte(b: u8) -> bool {
    ||| 65 <= b <= 90
    ||| 97 <= b <= 122
    ||| 48 <= b <= 57
    ||| b == 45
    ||| b == 95
}

/// Relies on sha2::Sha256::digest: the SHA-256 digest of the input, which
/// depends on the input bytes alone and is 32 bytes long.
#[verifier::external_body]
fn sha256(input: &Vec<u8>) -> (r: Vec<u8>)
    ensures
        r@ == sha256_of(input@),
        r@.len() == 32,
{
    sha2::Sha256::digest(input.as_slice()).to_vec()
}

/// Relies on base64's URL_SAFE_NO_PAD engine: the unpadded URL-safe encoding
/// of the input, which depends on the input bytes alone, is four characters
/// for every three input bytes rounded up, and uses only the URL-safe
/// alphabet.
#[verifier::external_body]
fn b64url(input: &Vec<u8>) -> (r: Vec<u8>)
    ensures
        r@ == b64url_of(input@),
        r@.len() == (input@.len() * 4 + 2) / 3,
        forall|i: int| 0 <= i < r@.len() ==> is_b64url_byte(r@[i]),
{
    base64::engine::general_purpose::URL_SAFE_NO_PAD.encode(input.as_slice()).into_bytes()
}

/// Relies on rand::random: 32 bytes from the thread-local cryptographically
/// secure generator. Nothing is assumed of their values, only the count.
#[verifier::external_body]
fn random_bytes_32() -> (r: Vec<u8>)
    ensures
        r@.len() == 32,
{
    rand::random::<[u8; 32]>().to_vec()
}

/// The challenge derived from a verifier: the URL-safe base64 encoding of
/// the verifier's SHA-256 digest.
pub open spec fn spec_challenge_of(verifier: Seq<u8>) -> Seq<u8> {
    b64url_of(sha256_of(verifier))
}

/// The challenge derivation method this flow uses. RFC 7636 names the
/// SHA-256 derivation `S256`.
#[derive(Clone, Copy, Debug, PartialEq, Eq, Structural)]
pub enum ChallengeMethod {
    S256,
}

/// A fresh verifier/challenge pair for one login attempt. The verifier is
/// held only in memory for the attempt and is never persisted.
#[derive(Clone, Debug, PartialEq, Eq)]
pub struct PkceCodes {
    /// The random code verifier: URL-safe text, 43 to 128 bytes.
    pub verifier: Vec<u8>,
    /// The challenge sent with the device-authorization request.
    pub challenge: Vec<u8>,
    /// The derivation method the challenge was computed with.
    pub challenge_method: ChallengeMethod,
}

impl PkceCodes {
    /// Well-formedness: the verifier is valid PKCE text and the challenge is
    /// the one derived from this very verifier.
    pub open spec fn wf(self) -> bool {
        &&& 43 <= self.verifier@.len() <= 128
        &&& forall|i: int| 0 <= i < self.verifier@.len() ==> is_b64url_byte(self.verifier@[i])
        &&& self.challenge@ == spec_challenge_of(self.verifier@)
        &&& self.challenge_method == ChallengeMethod::S256
    }

    /// Produce a fresh pair: a verifier encoding 256 bits from a secure
    /// random source, and the challenge bound to it.
    pub fn generate() -> (r: PkceCodes)
        ensures
            r.wf(),
    {
        let raw = random_bytes_32();
        let verifier = b64url(&raw);
        let challenge = compute_challenge(&verifier);
        PkceCodes { verifier, challenge, challenge_method: ChallengeMethod::S256 }
    }

    /// True iff the challenge held here is the one derived from the verifier
    /// held here, recomputed from scratch.
    pub fn binding_holds(&self) -> (r: bool)
        ensures
            r == (self.challenge@ == spec_challenge_of(self.verifier@)),
    {
        let recomputed = compute_challenge(&self.verifier);
        bytes_eq(&recomputed, &self.challenge)
    }
}

/// Recompute the challenge for a verifier.
pub fn compute_challenge(verifier: &Vec<u8>) -> (r: Vec<u8>)
    ensures
        r@ == spec_challenge_of(verifier@),
{
    let digest = sha256(verifier);
    b64url(&digest)
}

/// Byte-for-byte equality of two buffers.
pub fn bytes_eq(a: &Vec<u8>, b: &Vec<u8>) -> (r: bool)
    ensures
        r == (a@ == b@),
{
    if a.len() != b.len() {
        return false;
    }
    let mut i: usize = 0;
    while i < a.len()
        invariant
            i <= a.len(),
            a@.len() == b@.len(),
            forall|j: int| 0 <= j < i ==> a@[j] == b@[j],
        decreases a.len() - i,
    {
        if a[i] != b[i] {
            return false;
        }
        i += 1;
    }
    proof {
        assert(a@ =~= b@);
    }
    true
}

/// Law: the challenge derivation is deterministic — equal verifiers always
/// derive equal challenges, in every attempt.
pub proof fn lemma_challenge_deterministic(v1: Seq<u8>, v2: Seq<u8>)
    requires
        v1 == v2,
    ensures
        spec_challenge_of(v1) == spec_challenge_of(v2),
{
}

} // verus!
