//! The categories that transactions are sorted into.

use crate::plaid::{post_of, Client, PostRequest};
use vstd::prelude::*;

verus! {

impl<'a> Client<'a> {
    /// The request for all categories. It carries no credentials: its body
    /// is the JSON `null`.
    pub fn get_categories(&self) -> (request: PostRequest)
        ensures
            request@ == post_of(self.environment, "/categories/get"@, "null"@),
    {
        self.new_request("/categories/get", "null")
    }
}

} // verus!
