//! What only the sandbox environment offers.

use crate::errors::{Error, Kind};
use crate::json::{texts, JsonModel, Members};
use crate::plaid::{Client, Plan, PostRequest};
use vstd::prelude::*;
use vstd::slice::slice_to_vec;

verus! {

/// What asking the sandbox for a public token comes to: an empty institution
/// id or an empty list of products is refused; otherwise the id, the products
/// and the client's public key go to `/sandbox/public_token/create`.
pub open spec fn create_sandbox_public_token_plan(
    client: Client,
    institution_id: Seq<char>,
    initial_products: Seq<&str>,
) -> Plan {
    if institution_id.len() == 0 || initial_products.len() == 0 {
        Plan::Refuse(
            Kind::ValidationError("institution id and initial products must be specified"),
        )
    } else {
        Plan::Post {
            endpoint: "/sandbox/public_token/create"@,
            body: JsonModel::Object(
                Seq::empty().push(("institution_id"@, JsonModel::Text(institution_id))).push(
                    ("initial_products"@, JsonModel::Texts(texts(initial_products))),
                ).push(("public_key"@, JsonModel::Text(client.public_key@))),
            ),
        }
    }
}

impl<'a> Client<'a> {
    /// The request for a public token of a made-up item at an institution.
    pub fn create_sandbox_public_token(
        &self,
        institution_id: &str,
        initial_products: &[&str],
    ) -> (outcome: Result<PostRequest, Error>)
        ensures
            self.fulfils(
                create_sandbox_public_token_plan(*self, institution_id@, initial_products@),
                outcome,
            ),
    {
        if institution_id.is_empty() || initial_products.len() == 0 {
            return Err(
                Error::new(
                    Kind::ValidationError(
                        "institution id and initial products must be specified",
                    ),
                ),
            );
        }
        let mut members = Members::new();
        members.text("institution_id", institution_id);
        members.texts("initial_products", slice_to_vec(initial_products));
        members.text("public_key", self.public_key);
        self.post("/sandbox/public_token/create", &members.into_json())
    }

    /// The request that makes an item of the sandbox ask for its login anew.
    /// An empty access token is refused as `EmptyToken`.
    pub fn reset_sandbox_item(&self, access_token: &str) -> (outcome: Result<PostRequest, Error>)
        ensures
            self.fulfils(
                self.token_plan("/sandbox/item/reset_login"@, "access_token"@, access_token@),
                outcome,
            ),
    {
        if access_token.is_empty() {
            return Err(Error::new(Kind::EmptyToken));
        }
        let members = self.begin_for_item(access_token);
        self.post("/sandbox/item/reset_login", &members.into_json())
    }
}

} // verus!
