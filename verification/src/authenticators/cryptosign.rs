//! Cryptosign: the client signs the challenge with an Ed25519 key.

use crate::authenticators::authenticator::ClientAuthenticator;
use crate::authenticators::primitives::{
    compute_ed25519_public_key, compute_ed25519_signature, decode_hex, decode_hex_key,
    ed25519_public_key, ed25519_signature, encode_hex, hex_octets, hex_text, is_hex,
};
use crate::messages::authenticate::{Authenticate, AuthenticateView};
use crate::messages::challenge::{Challenge, ChallengeView};
use crate::messages::types::{
    inserted, lookup, shown, Dict, DictView, Error, Value, ValueView,
};
use vstd::prelude::*;

verus! {

#[derive(Debug, Clone)]
pub struct CryptoSignAuthenticator {
    authid: String,
    private_key: [u8; 32],
    extra: Dict,
}

/// The signature that answers a challenge: the hexadecimal text of the
/// Ed25519 signature of the octets that the challenge stands for, and then
/// the challenge as it came.
pub open spec fn cryptosign_signature(secret: Seq<u8>, challenge: Seq<char>) -> Seq<char> {
    hex_text(ed25519_signature(secret, hex_octets(challenge))) + challenge
}

/// The answer of cryptosign with the secret key `secret` to a challenge
/// that holds `extra`.
pub open spec fn cryptosign_answer(secret: Seq<u8>, extra: DictView) -> Result<
    AuthenticateView,
    Seq<char>,
> {
    match lookup(extra, "challenge"@) {
        Some(ValueView::Str(challenge)) => if is_hex(challenge) {
            Ok(
                AuthenticateView {
                    signature: cryptosign_signature(secret, challenge),
                    extra: Seq::empty(),
                },
            )
        } else {
            Err("failed to sign challenge: "@ + shown("failed to decode challenge hex"@))
        },
        _ => Err("challenge missing in authextra or is none"@),
    }
}

impl CryptoSignAuthenticator {
    /// The 32 octets of the secret key.
    pub closed spec fn secret(&self) -> Seq<u8> {
        self.private_key@
    }

    /// An authenticator for the secret key that the 64 hexadecimal digits
    /// of `private_key` stand for. Its public key is added to `extra`
    /// under `pubkey`, as hexadecimal text.
    pub fn try_new(authid: &str, private_key: &str, extra: Dict) -> (r: Result<Self, Error>)
        ensures
            match r {
                Ok(a) => {
                    &&& is_hex(private_key@) && private_key@.len() == 64
                    &&& a.id() == authid@
                    &&& a.secret() == hex_octets(private_key@)
                    &&& a.extra() == inserted(
                        extra@,
                        "pubkey"@,
                        ValueView::Str(hex_text(ed25519_public_key(hex_octets(private_key@)))),
                    )
                },
                Err(e) => {
                    &&& !(is_hex(private_key@) && private_key@.len() == 64)
                    &&& e.message@ == shown("invalid hex or wrong length"@)
                },
            },
    {
        match signing_key_from_hex(private_key) {
            Ok(key) => {
                let public = compute_ed25519_public_key(&key);
                let pub_key = encode_hex(public.as_slice());
                let mut extra = extra;
                extra.insert(String::from_str("pubkey"), Value::Str(pub_key));
                Ok(
                    CryptoSignAuthenticator {
                        authid: String::from_str(authid),
                        private_key: key,
                        extra,
                    },
                )
            },
            Err(err) => Err(Error::new(err.to_string())),
        }
    }
}

impl ClientAuthenticator for CryptoSignAuthenticator {
    open spec fn method(&self) -> Seq<char> {
        "cryptosign"@
    }

    closed spec fn id(&self) -> Seq<char> {
        self.authid@
    }

    closed spec fn extra(&self) -> DictView {
        self.extra@
    }

    open spec fn answer(&self, challenge: ChallengeView) -> Result<AuthenticateView, Seq<char>> {
        cryptosign_answer(self.secret(), challenge.extra)
    }

    fn auth_method(&self) -> (r: String) {
        String::from_str("cryptosign")
    }

    fn authid(&self) -> (r: String) {
        self.authid.clone()
    }

    fn auth_extra(&self) -> (r: Dict) {
        self.extra.clone()
    }

    fn authenticate(&self, challenge: &Challenge) -> (r: Result<Authenticate, Error>) {
        match challenge.extra.get("challenge") {
            Some(Value::Str(challenge_hex)) => {
                match sign_crypto_sign_challenge(challenge_hex.as_str(), &self.private_key) {
                    Ok(signed) => Ok(Authenticate { signature: signed, extra: Dict::new() }),
                    Err(err) => Err(Error::caused("failed to sign challenge: ", &err)),
                }
            },
            _ => Err(Error::text("challenge missing in authextra or is none")),
        }
    }
}

fn signing_key_from_hex(hex_str: &str) -> (r: Result<[u8; 32], Error>)
    ensures
        match r {
            Ok(key) => is_hex(hex_str@) && hex_str@.len() == 64 && key@ == hex_octets(hex_str@),
            Err(e) => !(is_hex(hex_str@) && hex_str@.len() == 64) && e.message@
                == "invalid hex or wrong length"@,
        },
{
    match decode_hex_key(hex_str) {
        Ok(bytes) => Ok(bytes),
        Err(_) => Err(Error::text("invalid hex or wrong length")),
    }
}

fn sign_crypto_sign_challenge(challenge: &str, private_key: &[u8; 32]) -> (r: Result<
    String,
    Error,
>)
    ensures
        match r {
            Ok(signed) => is_hex(challenge@) && signed@ == cryptosign_signature(
                private_key@,
                challenge@,
            ),
            Err(e) => !is_hex(challenge@) && e.message@ == "failed to decode challenge hex"@,
        },
{
    match decode_hex(challenge) {
        Ok(challenge_raw) => {
            let signature = compute_ed25519_signature(private_key, challenge_raw.as_slice());
            let mut signed = encode_hex(signature.as_slice());
            signed.append(challenge);
            Ok(signed)
        },
        Err(_) => Err(Error::text("failed to decode challenge hex")),
    }
}

} // verus!
