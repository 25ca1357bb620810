//! Items, and the tokens that stand for them.

use crate::errors::{Error, Kind};
use crate::json::JsonModel;
use crate::plaid::{Client, Plan, PostRequest};
use vstd::prelude::*;

verus! {

/// What setting the webhook of an item comes to: an empty access token or an
/// empty webhook is refused; otherwise the credentials, the token and the
/// webhook go to `/item/webhook/update`.
pub open spec fn update_item_webhook_plan(
    client: Client,
    access_token: Seq<char>,
    webhook: Seq<char>,
) -> Plan {
    if access_token.len() == 0 || webhook.len() == 0 {
        Plan::Refuse(Kind::ValidationError("access token and webhook must be specified"))
    } else {
        Plan::Post {
            endpoint: "/item/webhook/update"@,
            body: JsonModel::Object(
                client.for_item(access_token).push(("webhook"@, JsonModel::Text(webhook))),
            ),
        }
    }
}

impl<'a> Client<'a> {
    /// The request for an item. An empty access token is refused as
    /// `EmptyToken`.
    pub fn get_item(&self, access_token: &str) -> (outcome: Result<PostRequest, Error>)
        ensures
            self.fulfils(self.token_plan("/item/get"@, "access_token"@, access_token@), outcome),
    {
        if access_token.is_empty() {
            return Err(Error::new(Kind::EmptyToken));
        }
        let members = self.begin_for_item(access_token);
        self.post("/item/get", &members.into_json())
    }

    /// The request that removes an item. An empty access token is refused as
    /// `EmptyToken`.
    pub fn remove_item(&self, access_token: &str) -> (outcome: Result<PostRequest, Error>)
        ensures
            self.fulfils(
                self.token_plan("/item/remove"@, "access_token"@, access_token@),
                outcome,
            ),
    {
        if access_token.is_empty() {
            return Err(Error::new(Kind::EmptyToken));
        }
        let members = self.begin_for_item(access_token);
        self.post("/item/remove", &members.into_json())
    }

    /// The request that sets the webhook of an item.
    pub fn update_item_webhook(&self, access_token: &str, webhook: &str) -> (outcome: Result<
        PostRequest,
        Error,
    >)
        ensures
            self.fulfils(update_item_webhook_plan(*self, access_token@, webhook@), outcome),
    {
        if access_token.is_empty() || webhook.is_empty() {
            return Err(
                Error::new(Kind::ValidationError("access token and webhook must be specified")),
            );
        }
        let mut members = self.begin_for_item(access_token);
        members.text("webhook", webhook);
        self.post("/item/webhook/update", &members.into_json())
    }

    /// The request that replaces an access token by a new one. An empty
    /// access token is refused as `EmptyToken`.
    pub fn invalidate_access_token(&self, access_token: &str) -> (outcome: Result<
        PostRequest,
        Error,
    >)
        ensures
            self.fulfils(
                self.token_plan("/item/access_token/invalidate"@, "access_token"@, access_token@),
                outcome,
            ),
    {
        if access_token.is_empty() {
            return Err(Error::new(Kind::EmptyToken));
        }
        let members = self.begin_for_item(access_token);
        self.post("/item/access_token/invalidate", &members.into_json())
    }

    /// The request that turns an access token of the first version of the API
    /// into one of today's. The old token is sent as `access_token_v1`; an
    /// empty one is refused as `EmptyToken`.
    pub fn update_access_token_version(&self, access_token: &str) -> (outcome: Result<
        PostRequest,
        Error,
    >)
        ensures
            self.fulfils(
                self.token_plan(
                    "/item/access_token/update_version"@,
                    "access_token_v1"@,
                    access_token@,
                ),
                outcome,
            ),
    {
        if access_token.is_empty() {
            return Err(Error::new(Kind::EmptyToken));
        }
        let members = self.begin_with_token("access_token_v1", access_token);
        self.post("/item/access_token/update_version", &members.into_json())
    }

    /// The request for a public token of an item. An empty access token is
    /// refused as `EmptyToken`.
    pub fn create_public_token(&self, access_token: &str) -> (outcome: Result<
        PostRequest,
        Error,
    >)
        ensures
            self.fulfils(
                self.token_plan("/item/public_token/create"@, "access_token"@, access_token@),
                outcome,
            ),
    {
        if access_token.is_empty() {
            return Err(Error::new(Kind::EmptyToken));
        }
        let members = self.begin_for_item(access_token);
        self.post("/item/public_token/create", &members.into_json())
    }

    /// The request that exchanges a public token for an access token. An
    /// empty public token is refused as `EmptyToken`.
    pub fn exchange_public_token(&self, public_token: &str) -> (outcome: Result<
        PostRequest,
        Error,
    >)
        ensures
            self.fulfils(
                self.token_plan("/item/public_token/exchange"@, "public_token"@, public_token@),
                outcome,
            ),
    {
        if public_token.is_empty() {
            return Err(Error::new(Kind::EmptyToken));
        }
        let members = self.begin_with_token("public_token", public_token);
        self.post("/item/public_token/exchange", &members.into_json())
    }
}

} // verus!
