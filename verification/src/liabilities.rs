//! The loans that the accounts of an item stand for.

use crate::errors::{Error, Kind};
use crate::json::{
    borrowed, has_member, one_optional_member, sent, views, with_optional, Json, JsonModel, Members,
};
use crate::plaid::{Client, PostRequest};
use vstd::prelude::*;

verus! {

/// Which accounts of an item the liabilities are asked for. Unset, all of
/// them.
pub struct GetLiabilitiesRequestOptions {
    pub account_ids: Option<Vec<String>>,
}

impl GetLiabilitiesRequestOptions {
    /// The account ids as JSON, if they are set.
    pub open spec fn account_ids_model(self) -> Option<JsonModel> {
        match self.account_ids {
            Some(ids) => Some(JsonModel::Texts(views(ids@))),
            None => None,
        }
    }

    /// The object that is sent for these options.
    pub open spec fn model(self) -> JsonModel {
        JsonModel::Object(with_optional(Seq::empty(), "account_ids"@, self.account_ids_model()))
    }

    pub fn to_json<'a>(&'a self) -> (json: Json<'a>)
        ensures
            json@ == self.model(),
    {
        let mut members = Members::new();
        match &self.account_ids {
            Some(ids) => members.texts("account_ids", borrowed(ids)),
            None => {},
        }
        members.into_json()
    }

    /// Only what is set is sent: the object has one member for each field
    /// that is set, under the field's name, and none for a field that is not.
    pub proof fn only_set_fields_are_sent(self)
        ensures
            self.model() matches JsonModel::Object(members) && {
                &&& has_member(members, "account_ids"@) <==> self.account_ids is Some
                &&& members.len() == sent(self.account_ids)
            },
    {
        one_optional_member("account_ids"@, self.account_ids_model());
    }
}

/// What is sent for the options of a liabilities request, if there are any.
pub open spec fn liabilities_options(options: Option<GetLiabilitiesRequestOptions>) -> Option<
    JsonModel,
> {
    match options {
        Some(o) => Some(o.model()),
        None => None,
    }
}

impl<'a> Client<'a> {
    /// The request for the liabilities of all the accounts of an item: that
    /// of `get_liabilities_with_options` without options.
    pub fn get_liabilities(&self, access_token: &str) -> (outcome: Result<PostRequest, Error>)
        ensures
            self.fulfils(self.item_plan("/liabilities/get"@, access_token@, None), outcome),
    {
        self.get_liabilities_with_options(access_token, None)
    }

    /// The request for the liabilities of the accounts that the options
    /// choose. An empty access token is refused as `EmptyToken`.
    pub fn get_liabilities_with_options(
        &self,
        access_token: &str,
        options: Option<GetLiabilitiesRequestOptions>,
    ) -> (outcome: Result<PostRequest, Error>)
        ensures
            self.fulfils(
                self.item_plan("/liabilities/get"@, access_token@, liabilities_options(options)),
                outcome,
            ),
    {
        if access_token.is_empty() {
            return Err(Error::new(Kind::EmptyToken));
        }
        let mut members = self.begin_for_item(access_token);
        members.optional(
            "options",
            match &options {
                Some(o) => Some(o.to_json()),
                None => None,
            },
        );
        self.post("/liabilities/get", &members.into_json())
    }
}

} // verus!
