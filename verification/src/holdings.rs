//! The investment holdings of an item.

use crate::errors::{Error, Kind};
use crate::json::{
    has_member, one_optional_member, sent, texts_model, with_optional, Json, JsonModel, Members,
};
use crate::plaid::{Client, PostRequest};
use vstd::prelude::*;

verus! {

/// Which accounts of an item the holdings are asked for. Unset, all of them.
pub struct GetHoldingsRequestOptions<'a> {
    pub account_ids: Option<Vec<&'a str>>,
}

impl<'a> GetHoldingsRequestOptions<'a> {
    /// The object that is sent for these options.
    pub open spec fn model(self) -> JsonModel {
        JsonModel::Object(
            with_optional(Seq::empty(), "account_ids"@, texts_model(self.account_ids)),
        )
    }

    pub fn into_json(self) -> (json: Json<'a>)
        ensures
            json@ == self.model(),
    {
        let mut members = Members::new();
        members.optional_texts("account_ids", self.account_ids);
        members.into_json()
    }

    /// Only what is set is sent: the object has one member for each field
    /// that is set, under the field's name, and none for a field that is not.
    pub proof fn only_set_fields_are_sent(self)
        ensures
            self.model() matches JsonModel::Object(members) && {
                &&& has_member(members, "account_ids"@) <==> self.account_ids is Some
                &&& members.len() == sent(self.account_ids)
            },
    {
        one_optional_member("account_ids"@, texts_model(self.account_ids));
    }
}

/// What is sent for the options of a holdings request, if there are any.
pub open spec fn holdings_options(options: Option<GetHoldingsRequestOptions>) -> Option<
    JsonModel,
> {
    match options {
        Some(o) => Some(o.model()),
        None => None,
    }
}

impl<'a> Client<'a> {
    /// The request for the holdings of all the accounts of an item: that of
    /// `get_holdings_with_options` without options.
    pub fn get_holdings(&self, access_token: &str) -> (outcome: Result<PostRequest, Error>)
        ensures
            self.fulfils(
                self.item_plan("/investments/holdings/get"@, access_token@, None),
                outcome,
            ),
    {
        self.get_holdings_with_options(access_token, None)
    }

    /// The request for the holdings of the accounts that the options choose.
    /// An empty access token is refused as `EmptyToken`.
    pub fn get_holdings_with_options(
        &self,
        access_token: &str,
        options: Option<GetHoldingsRequestOptions>,
    ) -> (outcome: Result<PostRequest, Error>)
        ensures
            self.fulfils(
                self.item_plan(
                    "/investments/holdings/get"@,
                    access_token@,
                    holdings_options(options),
                ),
                outcome,
            ),
    {
        if access_token.is_empty() {
            return Err(Error::new(Kind::EmptyToken));
        }
        let mut members = self.begin_for_item(access_token);
        members.optional(
            "options",
            match options {
                Some(o) => Some(o.into_json()),
                None => None,
            },
        );
        self.post("/investments/holdings/get", &members.into_json())
    }
}

} // verus!
