//! The transactions of an item.

use crate::errors::{Error, Kind};
use crate::json::{
    has_member, number_model, sent, texts_model, three_optional_members, with_optional, Json,
    JsonModel, Members,
};
use crate::plaid::{Client, Plan, PostRequest};
use vstd::prelude::*;

verus! {

/// Which transactions are asked for: of which accounts, how many, and from
/// which one on. What is unset is left to the service.
pub struct GetTransactionsRequestOptions<'a> {
    pub account_ids: Option<Vec<&'a str>>,
    pub count: Option<i64>,
    pub offset: Option<i64>,
}

/// The object that is sent for options that choose accounts and a page of
/// what they hold: each of the three only if it is set.
pub open spec fn page_model(
    account_ids: Option<Vec<&str>>,
    count: Option<i64>,
    offset: Option<i64>,
) -> JsonModel {
    JsonModel::Object(
        with_optional(
            with_optional(
                with_optional(Seq::empty(), "account_ids"@, texts_model(account_ids)),
                "count"@,
                number_model(count),
            ),
            "offset"@,
            number_model(offset),
        ),
    )
}

/// Of the accounts and the page, only what is set is sent, each under its own
/// name.
pub proof fn only_set_page_fields_are_sent(
    account_ids: Option<Vec<&str>>,
    count: Option<i64>,
    offset: Option<i64>,
)
    ensures
        page_model(account_ids, count, offset) matches JsonModel::Object(members) && {
            &&& has_member(members, "account_ids"@) <==> account_ids is Some
            &&& has_member(members, "count"@) <==> count is Some
            &&& has_member(members, "offset"@) <==> offset is Some
            &&& members.len() == sent(account_ids) + sent(count) + sent(offset)
        },
{
    reveal_strlit("account_ids");
    reveal_strlit("count");
    reveal_strlit("offset");
    assert("account_ids"@.len() == 11);
    assert("count"@.len() == 5);
    three_optional_members(
        "account_ids"@,
        texts_model(account_ids),
        "count"@,
        number_model(count),
        "offset"@,
        number_model(offset),
    );
}

impl<'a> GetTransactionsRequestOptions<'a> {
    /// The object that is sent for these options.
    pub open spec fn model(self) -> JsonModel {
        page_model(self.account_ids, self.count, self.offset)
    }

    pub fn into_json(self) -> (json: Json<'a>)
        ensures
            json@ == self.model(),
    {
        let mut members = Members::new();
        members.optional_texts("account_ids", self.account_ids);
        members.optional_number("count", self.count);
        members.optional_number("offset", self.offset);
        members.into_json()
    }

    /// Only what is set is sent: the object has one member for each field
    /// that is set, under the field's name, and none for a field that is not.
    pub proof fn only_set_fields_are_sent(self)
        ensures
            self.model() matches JsonModel::Object(members) && {
                &&& has_member(members, "account_ids"@) <==> self.account_ids is Some
                &&& has_member(members, "count"@) <==> self.count is Some
                &&& has_member(members, "offset"@) <==> self.offset is Some
                &&& members.len() == sent(self.account_ids) + sent(self.count) + sent(self.offset)
            },
    {
        only_set_page_fields_are_sent(self.account_ids, self.count, self.offset);
    }
}

/// What is sent for the options of a transactions request, if there are any.
pub open spec fn transactions_options(options: Option<GetTransactionsRequestOptions>) -> Option<
    JsonModel,
> {
    match options {
        Some(o) => Some(o.model()),
        None => None,
    }
}

/// The members of a request about an item between two dates.
pub open spec fn between(
    client: Client,
    access_token: Seq<char>,
    start_date: Seq<char>,
    end_date: Seq<char>,
) -> Seq<(Seq<char>, JsonModel)> {
    client.for_item(access_token).push(("start_date"@, JsonModel::Text(start_date))).push(
        ("end_date"@, JsonModel::Text(end_date)),
    )
}

/// What asking for what happened between two dates comes to: an empty start
/// or end date is refused as a `ValidationError`, and then an empty access
/// token as `EmptyToken`; otherwise the credentials, the token, the dates and
/// the options, if there are any, go to `endpoint`.
pub open spec fn dated_plan(
    client: Client,
    endpoint: Seq<char>,
    access_token: Seq<char>,
    start_date: Seq<char>,
    end_date: Seq<char>,
    options: Option<JsonModel>,
) -> Plan {
    if start_date.len() == 0 || end_date.len() == 0 {
        Plan::Refuse(Kind::ValidationError("start date and end date must be specified"))
    } else if access_token.len() == 0 {
        Plan::Refuse(Kind::EmptyToken)
    } else {
        Plan::Post {
            endpoint,
            body: JsonModel::Object(
                with_optional(
                    between(client, access_token, start_date, end_date),
                    "options"@,
                    options,
                ),
            ),
        }
    }
}

/// Without options, what is asked between two dates is the credentials, the
/// token and the dates alone: the same endpoint, and a body that has no
/// member `options`.
pub proof fn dated_without_options(
    client: Client,
    endpoint: Seq<char>,
    access_token: Seq<char>,
    start_date: Seq<char>,
    end_date: Seq<char>,
)
    ensures
        start_date.len() > 0 && end_date.len() > 0 && access_token.len() > 0 ==> dated_plan(
            client,
            endpoint,
            access_token,
            start_date,
            end_date,
            None,
        ) == (Plan::Post {
            endpoint,
            body: JsonModel::Object(between(client, access_token, start_date, end_date)),
        }),
        !has_member(between(client, access_token, start_date, end_date), "options"@),
{
    reveal_strlit("client_id");
    reveal_strlit("secret");
    reveal_strlit("access_token");
    reveal_strlit("start_date");
    reveal_strlit("end_date");
    reveal_strlit("options");
    let members = between(client, access_token, start_date, end_date);
    assert forall|i: int| 0 <= i < members.len() implies (#[trigger] members[i]).0
        != "options"@ by {
        assert(members[0].0.len() == 9);
        assert(members[1].0.len() == 6);
        assert(members[2].0.len() == 12);
        assert(members[3].0.len() == 10);
        assert(members[4].0.len() == 8);
    }
}

impl<'a> Client<'a> {
    /// Begins a request body about an item between two dates.
    pub fn begin_between<'b>(
        &'b self,
        access_token: &'b str,
        start_date: &'b str,
        end_date: &'b str,
    ) -> (members: Members<'b>)
        ensures
            members@ == between(*self, access_token@, start_date@, end_date@),
    {
        let mut members = self.begin_for_item(access_token);
        members.text("start_date", start_date);
        members.text("end_date", end_date);
        members
    }

    /// The request for the transactions of an item between two dates: that of
    /// `get_transactions_with_options` without options.
    pub fn get_transactions(
        &self,
        access_token: &str,
        start_date: &str,
        end_date: &str,
    ) -> (outcome: Result<PostRequest, Error>)
        ensures
            self.fulfils(
                dated_plan(
                    *self,
                    "/transactions/get"@,
                    access_token@,
                    start_date@,
                    end_date@,
                    None,
                ),
                outcome,
            ),
    {
        self.get_transactions_with_options(access_token, start_date, end_date, None)
    }

    /// The request for the transactions between two dates that the options
    /// choose. An empty date is refused as a `ValidationError`, an empty access
    /// token as `EmptyToken`.
    pub fn get_transactions_with_options(
        &self,
        access_token: &str,
        start_date: &str,
        end_date: &str,
        options: Option<GetTransactionsRequestOptions>,
    ) -> (outcome: Result<PostRequest, Error>)
        ensures
            self.fulfils(
                dated_plan(
                    *self,
                    "/transactions/get"@,
                    access_token@,
                    start_date@,
                    end_date@,
                    transactions_options(options),
                ),
                outcome,
            ),
    {
        if start_date.is_empty() || end_date.is_empty() {
            return Err(
                Error::new(Kind::ValidationError("start date and end date must be specified")),
            );
        }
        if access_token.is_empty() {
            return Err(Error::new(Kind::EmptyToken));
        }
        let mut members = self.begin_between(access_token, start_date, end_date);
        members.optional(
            "options",
            match options {
                Some(o) => Some(o.into_json()),
                None => None,
            },
        );
        self.post("/transactions/get", &members.into_json())
    }
}

} // verus!
