//! Anonymous authentication: the client proves nothing.

use crate::authenticators::authenticator::ClientAuthenticator;
use crate::messages::authenticate::{Authenticate, AuthenticateView};
use crate::messages::challenge::{Challenge, ChallengeView};
use crate::messages::types::{Dict, DictView, Error, ValueView};
use vstd::prelude::*;

verus! {

#[derive(Debug, Clone)]
pub struct AnonymousAuthenticator {
    authid: String,
    extra: Dict,
}

impl ClientAuthenticator for AnonymousAuthenticator {
    open spec fn method(&self) -> Seq<char> {
        "anonymous"@
    }

    closed spec fn id(&self) -> Seq<char> {
        self.authid@
    }

    closed spec fn extra(&self) -> DictView {
        self.extra@
    }

    /// A router that challenges an anonymous client misbehaves: there is
    /// no answer.
    open spec fn answer(&self, challenge: ChallengeView) -> Result<AuthenticateView, Seq<char>> {
        Err("authenticate() must not be called for anonymous authentication"@)
    }

    fn auth_method(&self) -> (r: String) {
        String::from_str("anonymous")
    }

    fn authid(&self) -> (r: String) {
        self.authid.clone()
    }

    fn auth_extra(&self) -> (r: Dict) {
        self.extra.clone()
    }

    fn authenticate(&self, challenge: &Challenge) -> (r: Result<Authenticate, Error>) {
        Err(Error::text("authenticate() must not be called for anonymous authentication"))
    }
}

impl AnonymousAuthenticator {
    pub fn new(authid: &str, extra: Dict) -> (r: Self)
        ensures
            r.id() == authid@,
            r.extra() == extra@,
    {
        AnonymousAuthenticator { authid: String::from_str(authid), extra }
    }
}

impl Default for AnonymousAuthenticator {
    fn default() -> (r: Self)
        ensures
            r.id() == Seq::<char>::empty(),
            r.extra() == Seq::<(Seq<char>, ValueView)>::empty(),
    {
        AnonymousAuthenticator { authid: String::new(), extra: Dict::new() }
    }
}

} // verus!
