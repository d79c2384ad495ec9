//! What a client knows of the session it has joined.

use vstd::prelude::*;

verus! {

#[derive(Debug, PartialEq)]
pub struct SessionDetails {
    pub id: i64,
    pub realm: String,
    pub authid: String,
    pub auth_role: String,
    pub static_serializer: bool,
}

/// The model of a [`SessionDetails`].
pub struct SessionDetailsView {
    pub id: i64,
    pub realm: Seq<char>,
    pub authid: Seq<char>,
    pub auth_role: Seq<char>,
    pub static_serializer: bool,
}

impl View for SessionDetails {
    type V = SessionDetailsView;

    open spec fn view(&self) -> SessionDetailsView {
        SessionDetailsView {
            id: self.id,
            realm: self.realm@,
            authid: self.authid@,
            auth_role: self.auth_role@,
            static_serializer: self.static_serializer,
        }
    }
}

impl SessionDetails {
    pub fn new(
        id: i64,
        realm: String,
        authid: String,
        auth_role: String,
        static_serializer: bool,
    ) -> (r: Self)
        ensures
            r@ == (SessionDetailsView {
                id,
                realm: realm@,
                authid: authid@,
                auth_role: auth_role@,
                static_serializer,
            }),
    {
        SessionDetails { id, realm, authid, auth_role, static_serializer }
    }
}

} // verus!
