//! The proof key for the code exchange: a random verifier, its SHA-256
//! challenge, and a random state token against request forgery.

use rand::Rng;
use sha2::Digest;
use vstd::prelude::*;
use vstd::string::StringSliceAdditionalSpecFns;
use crate::text::{hex_lower, hex_text};

verus! {

/// The number of characters of a generated verifier.
pub const VERIFIER_LENGTH: usize = 86;

/// The number of characters of a generated state token.
pub const STATE_LENGTH: usize = 16;

/// The fewest characters that the provider takes for a verifier.
pub const MIN_VERIFIER_LENGTH: usize = 43;

/// The fewest alphanumeric characters that carry 64 bits.
pub const MIN_TOKEN_LENGTH: usize = 11;

/// The SHA-256 digest of a sequence of bytes.
pub uninterp spec fn sha256(data: Seq<u8>) -> Seq<u8>;

/// `sha2::Sha256` through `Digest::new`, `update` and `finalize`: the
/// SHA-256 digest of the bytes, which is 32 bytes long.
#[verifier::external_body]
fn sha256_digest(data: &[u8]) -> (digest: Vec<u8>)
    ensures
        digest@ == sha256(data@),
        digest@.len() == 32,
{
    let mut hasher = sha2::Sha256::new();
    hasher.update(data);
    hasher.finalize().to_vec()
}

/// Whether a character is an ASCII letter or digit.
pub open spec fn is_alphanumeric(c: char) -> bool {
    ('a' <= c && c <= 'z') || ('A' <= c && c <= 'Z') || ('0' <= c && c <= '9')
}

/// Whether a text is made of ASCII letters and digits alone.
pub open spec fn all_alphanumeric(s: Seq<char>) -> bool {
    forall|i: int| 0 <= i < s.len() ==> is_alphanumeric(#[trigger] s[i])
}

/// `rand::thread_rng` sampled through `rand::distributions::Alphanumeric`:
/// a text of the given length, each character an ASCII letter or digit.
/// Which ones is left to chance.
#[verifier::external_body]
fn random_alphanumeric(length: usize) -> (text: String)
    ensures
        text@.len() == length,
        all_alphanumeric(text@),
{
    rand::thread_rng().sample_iter(rand::distributions::Alphanumeric).take(length).map(
        char::from,
    ).collect()
}

/// The challenge that belongs to a verifier: the SHA-256 digest of the
/// verifier's bytes in lowercase hexadecimal.
pub open spec fn challenge_text(verifier: Seq<char>) -> Seq<char> {
    hex_text(sha256(vstd::utf8::encode_utf8(verifier)))
}

/// Computes the challenge that belongs to a verifier.
pub fn challenge_for(verifier: &str) -> (challenge: String)
    ensures
        challenge@ == challenge_text(verifier@),
        challenge@.len() == 64,
{
    let digest = sha256_digest(verifier.as_bytes());
    hex_lower(&digest)
}

/// A proof key: made once for each sign-in and dropped after the token
/// exchange.
#[derive(Debug, Clone, PartialEq, Eq)]
pub struct PkceChallenge {
    pub verifier: String,
    pub challenge: String,
    pub state: String,
}

impl PkceChallenge {
    /// The challenge is that of the verifier, and verifier and state are
    /// alphanumeric and long enough.
    pub open spec fn wf(&self) -> bool {
        &&& self.challenge@ == challenge_text(self.verifier@)
        &&& self.verifier@.len() >= MIN_VERIFIER_LENGTH
        &&& all_alphanumeric(self.verifier@)
        &&& self.state@.len() >= MIN_TOKEN_LENGTH
        &&& all_alphanumeric(self.state@)
    }

    /// A fresh proof key: a random verifier of 86 characters, its
    /// challenge, and a random state of 16 characters.
    pub fn generate() -> (pkce: PkceChallenge)
        ensures
            pkce.wf(),
            pkce.verifier@.len() == VERIFIER_LENGTH,
            pkce.state@.len() == STATE_LENGTH,
            pkce.challenge@.len() == 64,
    {
        let verifier = random_alphanumeric(VERIFIER_LENGTH);
        let challenge = challenge_for(verifier.as_str());
        let state = random_alphanumeric(STATE_LENGTH);
        PkceChallenge { verifier, challenge, state }
    }
}

/// `base` to the power `exponent`.
pub open spec fn power(base: nat, exponent: nat) -> nat
    decreases exponent,
{
    if exponent == 0 {
        1
    } else {
        base * power(base, (exponent - 1) as nat)
    }
}

/// Eleven characters drawn from the 62 letters and digits can take at
/// least two to the 64 values, and ten cannot: a token of the minimum
/// length carries 64 bits, and so does every longer one.
pub proof fn lemma_token_entropy()
    ensures
        power(62, MIN_TOKEN_LENGTH as nat) >= power(2, 64),
        power(62, (MIN_TOKEN_LENGTH - 1) as nat) < power(2, 64),
{
    reveal_with_fuel(power, 12);
    assert(power(62, 10) == 839299365868340224);
    assert(power(62, 11) == 52036560683837093888);
    lemma_two_to_64();
}

proof fn lemma_two_to_64()
    ensures
        power(2, 64) == 18446744073709551616,
{
    reveal_with_fuel(power, 17);
    assert(power(2, 16) == 65536);
    assert(power(2, 32) == 4294967296);
    assert(power(2, 48) == 281474976710656);
}

} // verus!
