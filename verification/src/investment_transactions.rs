//! The investment transactions of an item.

use crate::errors::{Error, Kind};
use crate::json::{has_member, sent, Json, JsonModel, Members};
use crate::plaid::{Client, PostRequest};
use crate::transactions::{dated_plan, only_set_page_fields_are_sent, page_model};
use vstd::prelude::*;

verus! {

/// Which investment transactions are asked for: of which accounts, how many,
/// and from which one on. What is unset is left to the service.
pub struct GetInvestmentTransactionsRequestOptions<'a> {
    pub account_ids: Option<Vec<&'a str>>,
    pub count: Option<i64>,
    pub offset: Option<i64>,
}

impl<'a> GetInvestmentTransactionsRequestOptions<'a> {
    /// The object that is sent for these options.
    pub open spec fn model(self) -> JsonModel {
        page_model(self.account_ids, self.count, self.offset)
    }

    pub fn into_json(self) -> (json: Json<'a>)
        ensures
            json@ == self.model(),
    {
        let mut members = Members::new();
        members.optional_texts("account_ids", self.account_ids);
        members.optional_number("count", self.count);
        members.optional_number("offset", self.offset);
        members.into_json()
    }

    /// Only what is set is sent: the object has one member for each field
    /// that is set, under the field's name, and none for a field that is not.
    pub proof fn only_set_fields_are_sent(self)
        ensures
            self.model() matches JsonModel::Object(members) && {
                &&& has_member(members, "account_ids"@) <==> self.account_ids is Some
                &&& has_member(members, "count"@) <==> self.count is Some
                &&& has_member(members, "offset"@) <==> self.offset is Some
                &&& members.len() == sent(self.account_ids) + sent(self.count) + sent(self.offset)
            },
    {
        only_set_page_fields_are_sent(self.account_ids, self.count, self.offset);
    }
}

/// What is sent for the options of an investment transactions request, if
/// there are any.
pub open spec fn investment_transactions_options(
    options: Option<GetInvestmentTransactionsRequestOptions>,
) -> Option<JsonModel> {
    match options {
        Some(o) => Some(o.model()),
        None => None,
    }
}

impl<'a> Client<'a> {
    /// The request for the investment transactions of an item between two
    /// dates: that of `get_investment_transactions_with_options` without
    /// options.
    pub fn get_investment_transactions(
        &self,
        access_token: &str,
        start_date: &str,
        end_date: &str,
    ) -> (outcome: Result<PostRequest, Error>)
        ensures
            self.fulfils(
                dated_plan(
                    *self,
                    "/investments/transactions/get"@,
                    access_token@,
                    start_date@,
                    end_date@,
                    None,
                ),
                outcome,
            ),
    {
        self.get_investment_transactions_with_options(access_token, start_date, end_date, None)
    }

    /// The request for the investment transactions between two dates that the
    /// options choose. An empty date is refused as a `ValidationError`, an
    /// empty access token as `EmptyToken`.
    pub fn get_investment_transactions_with_options(
        &self,
        access_token: &str,
        start_date: &str,
        end_date: &str,
        options: Option<GetInvestmentTransactionsRequestOptions>,
    ) -> (outcome: Result<PostRequest, Error>)
        ensures
            self.fulfils(
                dated_plan(
                    *self,
                    "/investments/transactions/get"@,
                    access_token@,
                    start_date@,
                    end_date@,
                    investment_transactions_options(options),
                ),
                outcome,
            ),
    {
        if start_date.is_empty() || end_date.is_empty() {
            return Err(
                Error::new(Kind::ValidationError("start date and end date must be specified")),
            );
        }
        if access_token.is_empty() {
            return Err(Error::new(Kind::EmptyToken));
        }
        let mut members = self.begin_between(access_token, start_date, end_date);
        members.optional(
            "options",
            match options {
                Some(o) => Some(o.into_json()),
                None => None,
            },
        );
        self.post("/investments/transactions/get", &members.into_json())
    }
}

} // verus!
