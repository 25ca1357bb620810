//! The accounts of an item, and their balances.

use crate::errors::{Error, Kind};
use crate::json::{
    has_member, one_optional_member, sent, texts_model, with_optional, Json, JsonModel, Members,
};
use crate::plaid::{Client, PostRequest};
use vstd::prelude::*;

verus! {

/// Which accounts of an item are asked for. Unset, all of them.
pub struct GetAccountsRequestOptions<'a> {
    pub account_ids: Option<Vec<&'a str>>,
}

/// Which accounts of an item the balances are asked for. Unset, all of them.
pub struct GetBalancesRequestOptions<'a> {
    pub account_ids: Option<Vec<&'a str>>,
}

impl<'a> GetAccountsRequestOptions<'a> {
    /// The object that is sent for these options.
    pub open spec fn model(self) -> JsonModel {
        JsonModel::Object(
            with_optional(Seq::empty(), "account_ids"@, texts_model(self.account_ids)),
        )
    }

    pub fn into_json(self) -> (json: Json<'a>)
        ensures
            json@ == self.model(),
    {
        let mut members = Members::new();
        members.optional_texts("account_ids", self.account_ids);
        members.into_json()
    }

    /// Only what is set is sent: the object has one member for each field
    /// that is set, under the field's name, and none for a field that is not.
    pub proof fn only_set_fields_are_sent(self)
        ensures
            self.model() matches JsonModel::Object(members) && {
                &&& has_member(members, "account_ids"@) <==> self.account_ids is Some
                &&& members.len() == sent(self.account_ids)
            },
    {
        one_optional_member("account_ids"@, texts_model(self.account_ids));
    }
}

impl<'a> GetBalancesRequestOptions<'a> {
    /// The object that is sent for these options.
    pub open spec fn model(self) -> JsonModel {
        JsonModel::Object(
            with_optional(Seq::empty(), "account_ids"@, texts_model(self.account_ids)),
        )
    }

    pub fn into_json(self) -> (json: Json<'a>)
        ensures
            json@ == self.model(),
    {
        let mut members = Members::new();
        members.optional_texts("account_ids", self.account_ids);
        members.into_json()
    }

    /// Only what is set is sent: the object has one member for each field
    /// that is set, under the field's name, and none for a field that is not.
    pub proof fn only_set_fields_are_sent(self)
        ensures
            self.model() matches JsonModel::Object(members) && {
                &&& has_member(members, "account_ids"@) <==> self.account_ids is Some
                &&& members.len() == sent(self.account_ids)
            },
    {
        one_optional_member("account_ids"@, texts_model(self.account_ids));
    }
}

/// What is sent for the options of an accounts request, if there are any.
pub open spec fn accounts_options(options: Option<GetAccountsRequestOptions>) -> Option<
    JsonModel,
> {
    match options {
        Some(o) => Some(o.model()),
        None => None,
    }
}

/// What is sent for the options of a balances request, if there are any.
pub open spec fn balances_options(options: Option<GetBalancesRequestOptions>) -> Option<
    JsonModel,
> {
    match options {
        Some(o) => Some(o.model()),
        None => None,
    }
}

impl<'a> Client<'a> {
    /// The request for all the accounts of an item: that of
    /// `get_accounts_with_options` without options.
    pub fn get_accounts(&self, access_token: &str) -> (outcome: Result<PostRequest, Error>)
        ensures
            self.fulfils(self.item_plan("/accounts/get"@, access_token@, None), outcome),
    {
        self.get_accounts_with_options(access_token, None)
    }

    /// The request for the accounts of an item that the options choose. An
    /// empty access token is refused as `EmptyToken`.
    pub fn get_accounts_with_options(
        &self,
        access_token: &str,
        options: Option<GetAccountsRequestOptions>,
    ) -> (outcome: Result<PostRequest, Error>)
        ensures
            self.fulfils(
                self.item_plan("/accounts/get"@, access_token@, accounts_options(options)),
                outcome,
            ),
    {
        if access_token.is_empty() {
            return Err(Error::new(Kind::EmptyToken));
        }
        let mut members = self.begin_for_item(access_token);
        members.optional(
            "options",
            match options {
                Some(o) => Some(o.into_json()),
                None => None,
            },
        );
        self.post("/accounts/get", &members.into_json())
    }

    /// The request for the balances of all the accounts of an item: that of
    /// `get_balances_with_options` without options.
    pub fn get_balances(&self, access_token: &str) -> (outcome: Result<PostRequest, Error>)
        ensures
            self.fulfils(self.item_plan("/accounts/balance/get"@, access_token@, None), outcome),
    {
        self.get_balances_with_options(access_token, None)
    }

    /// The request for the balances of the accounts that the options choose.
    /// An empty access token is refused as `EmptyToken`.
    pub fn get_balances_with_options(
        &self,
        access_token: &str,
        options: Option<GetBalancesRequestOptions>,
    ) -> (outcome: Result<PostRequest, Error>)
        ensures
            self.fulfils(
                self.item_plan("/accounts/balance/get"@, access_token@, balances_options(options)),
                outcome,
            ),
    {
        if access_token.is_empty() {
            return Err(Error::new(Kind::EmptyToken));
        }
        let mut members = self.begin_for_item(access_token);
        members.optional(
            "options",
            match options {
                Some(o) => Some(o.into_json()),
                None => None,
            },
        );
        self.post("/accounts/balance/get", &members.into_json())
    }
}

} // verus!
