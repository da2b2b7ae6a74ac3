//! Issued credentials: which user each bearer token stands for.

use vstd::prelude::*;
use std::collections::HashMap;
use crate::fresh::fresh_uuid;
use crate::types::{Token, UserId};

verus! {

broadcast use vstd::std_specs::hash::group_hash_axioms;

/// What a login hands to the client.
#[derive(Clone, Copy, Debug, PartialEq, Eq, Structural)]
pub struct LoginResponse {
    pub token: Token,
    pub user_id: UserId,
}

/// The tokens issued so far, each with its user.
pub struct TokenStore {
    issued: HashMap<u128, UserId>,
}

impl View for TokenStore {
    type V = Map<u128, UserId>;

    closed spec fn view(&self) -> Map<u128, UserId> {
        self.issued@
    }
}

impl TokenStore {
    /// A store without tokens.
    pub fn new() -> (store: Self)
        ensures
            store@ == Map::<u128, UserId>::empty(),
    {
        TokenStore { issued: HashMap::new() }
    }

    /// Binds `token` to `user_id` and hands both back for the client.
    pub fn issue(&mut self, token: Token, user_id: UserId) -> (response: LoginResponse)
        ensures
            final(self)@ == old(self)@.insert(token.0, user_id),
            response == (LoginResponse { token, user_id }),
    {
        let _ = self.issued.insert(token.0, user_id);
        LoginResponse { token, user_id }
    }

    /// Logs a new user in under a fresh identity and a fresh token.
    pub fn login(&mut self) -> (response: LoginResponse)
        ensures
            final(self)@ == old(self)@.insert(response.token.0, response.user_id),
    {
        let user_id = UserId(fresh_uuid());
        let token = Token(fresh_uuid());
        self.issue(token, user_id)
    }

    /// The user that `token` was issued to, if it was issued.
    pub fn lookup(&self, token: Token) -> (user: Option<UserId>)
        ensures
            user == (if self@.contains_key(token.0) {
                Some(self@[token.0])
            } else {
                None
            }),
    {
        match self.issued.get(&token.0) {
            Some(user_id) => Some(*user_id),
            None => None,
        }
    }
}

} // verus!
