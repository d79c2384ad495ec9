//! WAMP-CRA: the client signs the challenge with a secret it shares with
//! the router, or with a key derived from that secret and a salt.

use crate::authenticators::authenticator::ClientAuthenticator;
use crate::authenticators::primitives::{
    base64_standard, compute_hmac_sha256, compute_pbkdf2_hmac_sha256, encode_base64,
    hmac_sha256, max_derived_length, max_encoded_length, pbkdf2_hmac_sha256,
};
use crate::messages::authenticate::{Authenticate, AuthenticateView};
use crate::messages::challenge::{Challenge, ChallengeView};
use crate::messages::types::{lookup, shown, Dict, DictView, Error, Value, ValueView};
use vstd::prelude::*;
use vstd::utf8::encode_utf8;

verus! {

#[derive(Debug, Clone)]
pub struct WAMPCRAAuthenticator {
    authid: String,
    secret: String,
    extra: Dict,
}

/// The signature of a challenge under a key: the base64 text of the
/// HMAC-SHA256 tag of the challenge text.
pub open spec fn cra_signature(challenge: Seq<char>, key: Seq<u8>) -> Seq<char> {
    base64_standard(hmac_sha256(key, encode_utf8(challenge)))
}

/// The key derived from a secret and a salt: the base64 text of the
/// PBKDF2-HMAC-SHA256 output. The text itself, not the octets it stands
/// for, is the key under which the challenge is signed.
pub open spec fn cra_key(secret: Seq<char>, salt: Seq<char>, iterations: u32, keylen: nat) -> Seq<
    char,
> {
    base64_standard(
        pbkdf2_hmac_sha256(encode_utf8(secret), encode_utf8(salt), iterations, keylen),
    )
}

/// Whether a challenge asks for a derived key: it holds all of `salt`,
/// `iterations` and `keylen`.
pub open spec fn is_salted(extra: DictView) -> bool {
    &&& lookup(extra, "salt"@) is Some
    &&& lookup(extra, "iterations"@) is Some
    &&& lookup(extra, "keylen"@) is Some
}

/// The greatest length of a derived key: what PBKDF2 derives, and what
/// the machine can encode.
pub open spec fn max_key_length() -> int {
    if max_encoded_length() < max_derived_length() {
        max_encoded_length()
    } else {
        max_derived_length()
    }
}

/// The text of the error for a key length beyond the greatest.
pub open spec fn key_too_long() -> Seq<char> {
    "keylen is more than can be derived"@
}

/// The answer of WAMP-CRA with the secret `secret` to a challenge that
/// holds `extra`; `own_extra` is carried into the answer.
pub open spec fn cra_answer(secret: Seq<char>, own_extra: DictView, extra: DictView) -> Result<
    AuthenticateView,
    Seq<char>,
> {
    match lookup(extra, "challenge"@) {
        Some(ValueView::Str(challenge)) => if is_salted(extra) {
            match lookup(extra, "salt"@) {
                Some(ValueView::Str(salt)) => match lookup(extra, "iterations"@) {
                    Some(ValueView::Int(iterations)) => match lookup(extra, "keylen"@) {
                        Some(ValueView::Int(keylen)) => if !(0 <= iterations <= u32::MAX) {
                            Err("Invalid value for iterations: must be positive"@)
                        } else if !(0 <= keylen <= usize::MAX) {
                            Err("Invalid value for keylen: must be positive"@)
                        } else if keylen > max_key_length() {
                            Err(shown(key_too_long()))
                        } else {
                            Ok(
                                AuthenticateView {
                                    signature: cra_signature(
                                        challenge,
                                        encode_utf8(
                                            cra_key(secret, salt, iterations as u32, keylen as nat),
                                        ),
                                    ),
                                    extra: own_extra,
                                },
                            )
                        },
                        _ => Err("keylen must be an int"@),
                    },
                    _ => Err("iterations must be an int"@),
                },
                _ => Err("salt must be a string"@),
            }
        } else {
            Ok(
                AuthenticateView {
                    signature: cra_signature(challenge, encode_utf8(secret)),
                    extra: own_extra,
                },
            )
        },
        _ => Err("challenge must be a string"@),
    }
}

/// The signature is fixed by the secret and by what the challenge holds
/// under `challenge`, `salt`, `iterations` and `keylen`: two answers from
/// the same secret to challenges that agree on these four are both errors
/// with one text, or both carry the same signature.
pub proof fn cra_signature_determined(
    secret: Seq<char>,
    own_a: DictView,
    own_b: DictView,
    extra_a: DictView,
    extra_b: DictView,
)
    requires
        lookup(extra_a, "challenge"@) == lookup(extra_b, "challenge"@),
        lookup(extra_a, "salt"@) == lookup(extra_b, "salt"@),
        lookup(extra_a, "iterations"@) == lookup(extra_b, "iterations"@),
        lookup(extra_a, "keylen"@) == lookup(extra_b, "keylen"@),
    ensures
        match (cra_answer(secret, own_a, extra_a), cra_answer(secret, own_b, extra_b)) {
            (Ok(a), Ok(b)) => a.signature == b.signature,
            (Err(a), Err(b)) => a == b,
            _ => false,
        },
{
}

impl WAMPCRAAuthenticator {
    /// The secret shared with the router.
    pub closed spec fn secret(&self) -> Seq<char> {
        self.secret@
    }

    pub fn new(authid: &str, secret: &str, extra: Dict) -> (r: Self)
        ensures
            r.id() == authid@,
            r.secret() == secret@,
            r.extra() == extra@,
    {
        WAMPCRAAuthenticator {
            authid: String::from_str(authid),
            secret: String::from_str(secret),
            extra,
        }
    }
}

impl ClientAuthenticator for WAMPCRAAuthenticator {
    open spec fn method(&self) -> Seq<char> {
        "wampcra"@
    }

    closed spec fn id(&self) -> Seq<char> {
        self.authid@
    }

    closed spec fn extra(&self) -> DictView {
        self.extra@
    }

    open spec fn answer(&self, challenge: ChallengeView) -> Result<AuthenticateView, Seq<char>> {
        cra_answer(self.secret(), self.extra(), challenge.extra)
    }

    fn auth_method(&self) -> (r: String) {
        String::from_str("wampcra")
    }

    fn authid(&self) -> (r: String) {
        self.authid.clone()
    }

    fn auth_extra(&self) -> (r: Dict) {
        self.extra.clone()
    }

    fn authenticate(&self, challenge: &Challenge) -> (r: Result<Authenticate, Error>) {
        let challenge_hex = match challenge.extra.get("challenge") {
            Some(Value::Str(s)) => s,
            _ => {
                return Err(Error::text("challenge must be a string"));
            },
        };

        let signed = if challenge.extra.contains_key("salt") && challenge.extra.contains_key(
            "iterations",
        ) && challenge.extra.contains_key("keylen") {
            let salt = match challenge.extra.get("salt") {
                Some(Value::Str(s)) => s,
                _ => {
                    return Err(Error::text("salt must be a string"));
                },
            };
            let iterations = match challenge.extra.get("iterations") {
                Some(Value::Int(n)) => *n,
                _ => {
                    return Err(Error::text("iterations must be an int"));
                },
            };
            let keylen = match challenge.extra.get("keylen") {
                Some(Value::Int(n)) => *n,
                _ => {
                    return Err(Error::text("keylen must be an int"));
                },
            };
            if iterations < 0 || iterations > 0xffff_ffff {
                return Err(Error::text("Invalid value for iterations: must be positive"));
            }
            if keylen < 0 || keylen as u64 > usize::MAX as u64 {
                return Err(Error::text("Invalid value for keylen: must be positive"));
            }
            let key = match derive_wamp_cra_key(
                self.secret.as_str(),
                salt.as_str(),
                iterations as u32,
                keylen as usize,
            ) {
                Ok(key) => key,
                Err(e) => {
                    return Err(Error::new(e.to_string()));
                },
            };
            sign_cra_challenge(challenge_hex.as_str(), key.as_str().as_bytes())
        } else {
            sign_cra_challenge(challenge_hex.as_str(), self.secret.as_str().as_bytes())
        };
        match signed {
            Ok(signature) => Ok(Authenticate { signature, extra: self.extra.clone() }),
            Err(e) => Err(Error::new(e.to_string())),
        }
    }
}

fn sign_cra_challenge(challenge: &str, key: &[u8]) -> (r: Result<String, Error>)
    ensures
        r matches Ok(signature) && signature@ == cra_signature(challenge@, key@),
{
    let tag = compute_hmac_sha256(key, challenge.as_bytes());
    Ok(encode_base64(tag.as_slice()))
}

/// Derives the key for a salted challenge: PBKDF2-HMAC-SHA256 over the
/// secret and the salt, as base64 text. A length beyond the greatest is
/// an error.
pub fn derive_wamp_cra_key(secret: &str, salt: &str, iterations: u32, keylen: usize) -> (r: Result<
    String,
    Error,
>)
    ensures
        match r {
            Ok(key) => keylen <= max_key_length() && key@ == cra_key(
                secret@,
                salt@,
                iterations,
                keylen as nat,
            ),
            Err(e) => keylen > max_key_length() && e.message@ == key_too_long(),
        },
{
    if keylen as u64 > 32 * 0xffff_ffff || keylen > usize::MAX / 4 {
        return Err(Error::text("keylen is more than can be derived"));
    }
    let derived_key = compute_pbkdf2_hmac_sha256(
        secret.as_bytes(),
        salt.as_bytes(),
        iterations,
        keylen,
    );
    Ok(encode_base64(derived_key.as_slice()))
}

} // verus!
