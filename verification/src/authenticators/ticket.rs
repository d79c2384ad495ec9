//! Ticket authentication: the client shows a secret that the router knows.

use crate::authenticators::authenticator::ClientAuthenticator;
use crate::messages::authenticate::{Authenticate, AuthenticateView};
use crate::messages::challenge::{Challenge, ChallengeView};
use crate::messages::types::{Dict, DictView, Error};
use vstd::prelude::*;

verus! {

#[derive(Debug, Clone)]
pub struct TicketAuthenticator {
    authid: String,
    ticket: String,
    extra: Dict,
}

impl TicketAuthenticator {
    /// The ticket that is shown.
    pub closed spec fn ticket(&self) -> Seq<char> {
        self.ticket@
    }

    pub fn new(authid: &str, ticket: &str, extra: Dict) -> (r: Self)
        ensures
            r.id() == authid@,
            r.ticket() == ticket@,
            r.extra() == extra@,
    {
        TicketAuthenticator {
            authid: String::from_str(authid),
            ticket: String::from_str(ticket),
            extra,
        }
    }
}

impl ClientAuthenticator for TicketAuthenticator {
    open spec fn method(&self) -> Seq<char> {
        "ticket"@
    }

    closed spec fn id(&self) -> Seq<char> {
        self.authid@
    }

    closed spec fn extra(&self) -> DictView {
        self.extra@
    }

    /// Whatever the challenge holds, the answer is the ticket.
    open spec fn answer(&self, challenge: ChallengeView) -> Result<AuthenticateView, Seq<char>> {
        Ok(AuthenticateView { signature: self.ticket(), extra: self.extra() })
    }

    fn auth_method(&self) -> (r: String) {
        String::from_str("ticket")
    }

    fn authid(&self) -> (r: String) {
        self.authid.clone()
    }

    fn auth_extra(&self) -> (r: Dict) {
        self.extra.clone()
    }

    fn authenticate(&self, challenge: &Challenge) -> (r: Result<Authenticate, Error>) {
        Ok(Authenticate { signature: self.ticket.clone(), extra: self.extra.clone() })
    }
}

} // verus!
