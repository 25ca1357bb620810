//! The income that the accounts of an item show.

use crate::errors::{Error, Kind};
use crate::plaid::{Client, PostRequest};
use vstd::prelude::*;

verus! {

impl<'a> Client<'a> {
    /// The request for the income behind an item. An empty access token is
    /// refused as `EmptyToken`.
    pub fn get_income(&self, access_token: &str) -> (outcome: Result<PostRequest, Error>)
        ensures
            self.fulfils(
                self.token_plan("/income/get"@, "access_token"@, access_token@),
                outcome,
            ),
    {
        if access_token.is_empty() {
            return Err(Error::new(Kind::EmptyToken));
        }
        let members = self.begin_for_item(access_token);
        self.post("/income/get", &members.into_json())
    }
}

} // verus!
