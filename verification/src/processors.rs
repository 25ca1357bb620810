//! Tokens that hand an account over to a payment processor.

use crate::errors::{Error, Kind};
use crate::json::JsonModel;
use crate::plaid::{Client, Plan, PostRequest};
use vstd::prelude::*;

verus! {

/// What asking for a processor's token comes to: an empty access token or an
/// empty account id is refused; otherwise the credentials, the token and the
/// id go to the processor's endpoint.
pub open spec fn processor_plan(
    client: Client,
    endpoint: Seq<char>,
    access_token: Seq<char>,
    account_id: Seq<char>,
) -> Plan {
    if access_token.len() == 0 || account_id.len() == 0 {
        Plan::Refuse(Kind::ValidationError("access token and account ID must be specified"))
    } else {
        Plan::Post {
            endpoint,
            body: JsonModel::Object(
                client.for_item(access_token).push(("account_id"@, JsonModel::Text(account_id))),
            ),
        }
    }
}

impl<'a> Client<'a> {
    /// The request for a token that Apex accepts for an account.
    pub fn create_apex_token(&self, access_token: &str, account_id: &str) -> (outcome: Result<
        PostRequest,
        Error,
    >)
        ensures
            self.fulfils(
                processor_plan(
                    *self,
                    "/processor/apex/processor_token/create"@,
                    access_token@,
                    account_id@,
                ),
                outcome,
            ),
    {
        if access_token.is_empty() || account_id.is_empty() {
            return Err(
                Error::new(
                    Kind::ValidationError("access token and account ID must be specified"),
                ),
            );
        }
        let mut members = self.begin_for_item(access_token);
        members.text("account_id", account_id);
        self.post("/processor/apex/processor_token/create", &members.into_json())
    }

    /// The request for a token that Dwolla accepts for an account.
    pub fn create_dwolla_token(&self, access_token: &str, account_id: &str) -> (outcome: Result<
        PostRequest,
        Error,
    >)
        ensures
            self.fulfils(
                processor_plan(
                    *self,
                    "/processor/dwolla/processor_token/create"@,
                    access_token@,
                    account_id@,
                ),
                outcome,
            ),
    {
        if access_token.is_empty() || account_id.is_empty() {
            return Err(
                Error::new(
                    Kind::ValidationError("access token and account ID must be specified"),
                ),
            );
        }
        let mut members = self.begin_for_item(access_token);
        members.text("account_id", account_id);
        self.post("/processor/dwolla/processor_token/create", &members.into_json())
    }

    /// The request for a bank account token that Stripe accepts for an
    /// account.
    pub fn create_stripe_token(&self, access_token: &str, account_id: &str) -> (outcome: Result<
        PostRequest,
        Error,
    >)
        ensures
            self.fulfils(
                processor_plan(
                    *self,
                    "/processor/stripe/bank_account_token/create"@,
                    access_token@,
                    account_id@,
                ),
                outcome,
            ),
    {
        if access_token.is_empty() || account_id.is_empty() {
            return Err(
                Error::new(
                    Kind::ValidationError("access token and account ID must be specified"),
                ),
            );
        }
        let mut members = self.begin_for_item(access_token);
        members.text("account_id", account_id);
        self.post("/processor/stripe/bank_account_token/create", &members.into_json())
    }
}

} // verus!
