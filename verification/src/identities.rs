//! The owners of the accounts of an item.

use crate::errors::{Error, Kind};
use crate::plaid::{Client, PostRequest};
use vstd::prelude::*;

verus! {

impl<'a> Client<'a> {
    /// The request for the identities behind an item. An empty access token
    /// is refused as `EmptyToken`.
    pub fn get_identity(&self, access_token: &str) -> (outcome: Result<PostRequest, Error>)
        ensures
            self.fulfils(
                self.token_plan("/identity/get"@, "access_token"@, access_token@),
                outcome,
            ),
    {
        if access_token.is_empty() {
            return Err(Error::new(Kind::EmptyToken));
        }
        let members = self.begin_for_item(access_token);
        self.post("/identity/get", &members.into_json())
    }
}

} // verus!
