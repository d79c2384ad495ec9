//! The interface of an authentication method.

use crate::messages::authenticate::{Authenticate, AuthenticateView};
use crate::messages::challenge::{Challenge, ChallengeView};
use crate::messages::types::{outcome, Dict, DictView, Error};
use vstd::prelude::*;

verus! {

/// An authentication method: what it announces in HELLO, and how it
/// answers a CHALLENGE. The answer depends on the authenticator and the
/// challenge alone.
///
/// The contracts of the four methods are proved of the authenticators of
/// this library. An authenticator from elsewhere has to keep them: the
/// joiner is verified against them.
pub trait ClientAuthenticator {
    /// The name of the method.
    spec fn method(&self) -> Seq<char>;

    /// The identity that the client claims.
    spec fn id(&self) -> Seq<char>;

    /// What the method adds to the details of HELLO.
    spec fn extra(&self) -> DictView;

    /// The answer to a challenge, or the text of the error.
    spec fn answer(&self, challenge: ChallengeView) -> Result<AuthenticateView, Seq<char>>;

    fn auth_method(&self) -> (r: String)
        ensures
            r@ == self.method(),
    ;

    fn authid(&self) -> (r: String)
        ensures
            r@ == self.id(),
    ;

    fn auth_extra(&self) -> (r: Dict)
        ensures
            r@ == self.extra(),
    ;

    fn authenticate(&self, challenge: &Challenge) -> (r: Result<Authenticate, Error>)
        ensures
            outcome(r) == self.answer(challenge@),
    ;
}

} // verus!
