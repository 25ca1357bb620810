//! The institutions that items can be made at.

use crate::errors::{Error, Kind};
use crate::json::{
    flag_model, has_member, sent, texts, texts_model, three_optional_members, two_optional_members,
    with_optional, Json, JsonModel, Members,
};
use crate::plaid::{Client, Plan, PostRequest};
use vstd::prelude::*;

verus! {

/// Which institutions are listed, and how much is told of each.
pub struct GetInstitutionsRequestOptions<'a> {
    pub products: Option<Vec<&'a str>>,
    pub include_optional_metadata: Option<bool>,
    pub country_codes: Option<Vec<&'a str>>,
}

/// How much is told of the institution that is asked for.
pub struct GetInstitutionByIdRequestOptions {
    pub include_optional_metadata: Option<bool>,
    pub include_status: Option<bool>,
}

/// Where institutions are searched, and how much is told of each.
pub struct SearchInstitutionsRequestOptions<'a> {
    pub include_optional_metadata: Option<bool>,
    pub country_codes: Option<Vec<&'a str>>,
}

impl<'a> GetInstitutionsRequestOptions<'a> {
    /// The object that is sent for these options.
    pub open spec fn model(self) -> JsonModel {
        JsonModel::Object(
            with_optional(
                with_optional(
                    with_optional(Seq::empty(), "products"@, texts_model(self.products)),
                    "include_optional_metadata"@,
                    flag_model(self.include_optional_metadata),
                ),
                "country_codes"@,
                texts_model(self.country_codes),
            ),
        )
    }

    pub fn into_json(self) -> (json: Json<'a>)
        ensures
            json@ == self.model(),
    {
        let mut members = Members::new();
        members.optional_texts("products", self.products);
        members.optional_flag("include_optional_metadata", self.include_optional_metadata);
        members.optional_texts("country_codes", self.country_codes);
        members.into_json()
    }

    /// Only what is set is sent: the object has one member for each field
    /// that is set, under the field's name, and none for a field that is not.
    pub proof fn only_set_fields_are_sent(self)
        ensures
            self.model() matches JsonModel::Object(members) && {
                &&& has_member(members, "products"@) <==> self.products is Some
                &&& has_member(members, "include_optional_metadata"@)
                    <==> self.include_optional_metadata is Some
                &&& has_member(members, "country_codes"@) <==> self.country_codes is Some
                &&& members.len() == sent(self.products) + sent(self.include_optional_metadata)
                    + sent(self.country_codes)
            },
    {
        reveal_strlit("products");
        reveal_strlit("include_optional_metadata");
        reveal_strlit("country_codes");
        assert("products"@.len() == 8);
        assert("include_optional_metadata"@.len() == 25);
        three_optional_members(
            "products"@,
            texts_model(self.products),
            "include_optional_metadata"@,
            flag_model(self.include_optional_metadata),
            "country_codes"@,
            texts_model(self.country_codes),
        );
    }
}

impl GetInstitutionByIdRequestOptions {
    /// The object that is sent for these options.
    pub open spec fn model(self) -> JsonModel {
        JsonModel::Object(
            with_optional(
                with_optional(
                    Seq::empty(),
                    "include_optional_metadata"@,
                    flag_model(self.include_optional_metadata),
                ),
                "include_status"@,
                flag_model(self.include_status),
            ),
        )
    }

    pub fn into_json<'a>(self) -> (json: Json<'a>)
        ensures
            json@ == self.model(),
    {
        let mut members = Members::new();
        members.optional_flag("include_optional_metadata", self.include_optional_metadata);
        members.optional_flag("include_status", self.include_status);
        members.into_json()
    }

    /// Only what is set is sent: the object has one member for each field
    /// that is set, under the field's name, and none for a field that is not.
    pub proof fn only_set_fields_are_sent(self)
        ensures
            self.model() matches JsonModel::Object(members) && {
                &&& has_member(members, "include_optional_metadata"@)
                    <==> self.include_optional_metadata is Some
                &&& has_member(members, "include_status"@) <==> self.include_status is Some
                &&& members.len() == sent(self.include_optional_metadata)
                    + sent(self.include_status)
            },
    {
        reveal_strlit("include_optional_metadata");
        reveal_strlit("include_status");
        assert("include_optional_metadata"@.len() == 25);
        two_optional_members(
            "include_optional_metadata"@,
            flag_model(self.include_optional_metadata),
            "include_status"@,
            flag_model(self.include_status),
        );
    }
}

impl<'a> SearchInstitutionsRequestOptions<'a> {
    /// The object that is sent for these options.
    pub open spec fn model(self) -> JsonModel {
        JsonModel::Object(
            with_optional(
                with_optional(
                    Seq::empty(),
                    "include_optional_metadata"@,
                    flag_model(self.include_optional_metadata),
                ),
                "country_codes"@,
                texts_model(self.country_codes),
            ),
        )
    }

    pub fn into_json(self) -> (json: Json<'a>)
        ensures
            json@ == self.model(),
    {
        let mut members = Members::new();
        members.optional_flag("include_optional_metadata", self.include_optional_metadata);
        members.optional_texts("country_codes", self.country_codes);
        members.into_json()
    }

    /// Only what is set is sent: the object has one member for each field
    /// that is set, under the field's name, and none for a field that is not.
    pub proof fn only_set_fields_are_sent(self)
        ensures
            self.model() matches JsonModel::Object(members) && {
                &&& has_member(members, "include_optional_metadata"@)
                    <==> self.include_optional_metadata is Some
                &&& has_member(members, "country_codes"@) <==> self.country_codes is Some
                &&& members.len() == sent(self.include_optional_metadata) + sent(self.country_codes)
            },
    {
        reveal_strlit("include_optional_metadata");
        reveal_strlit("country_codes");
        assert("include_optional_metadata"@.len() == 25);
        two_optional_members(
            "include_optional_metadata"@,
            flag_model(self.include_optional_metadata),
            "country_codes"@,
            texts_model(self.country_codes),
        );
    }
}

/// What is sent for the options of a listing, if there are any.
pub open spec fn institutions_options(options: Option<GetInstitutionsRequestOptions>) -> Option<
    JsonModel,
> {
    match options {
        Some(o) => Some(o.model()),
        None => None,
    }
}

/// What is sent for the options of a request by id, if there are any.
pub open spec fn institution_by_id_options(
    options: Option<GetInstitutionByIdRequestOptions>,
) -> Option<JsonModel> {
    match options {
        Some(o) => Some(o.model()),
        None => None,
    }
}

/// What is sent for the options of a search, if there are any.
pub open spec fn search_options(options: Option<SearchInstitutionsRequestOptions>) -> Option<
    JsonModel,
> {
    match options {
        Some(o) => Some(o.model()),
        None => None,
    }
}

/// How many institutions are listed where none were asked for.
pub const DEFAULT_COUNT: u16 = 50;

/// How many institutions a listing asks for: `count`, or the default where
/// `count` is zero.
pub open spec fn listed(count: u16) -> u16 {
    if count == 0 {
        DEFAULT_COUNT
    } else {
        count
    }
}

/// A listing never asks for no institutions: a count of zero stands for the
/// default, and any other count for itself.
pub proof fn listed_is_positive(count: u16)
    ensures
        listed(count) > 0,
        listed(0) == 50,
        count > 0 ==> listed(count) == count,
{
}

/// The members of a listing: the credentials, how many institutions are asked
/// for, and from which one on.
pub open spec fn listing(client: Client, count: u16, offset: u32) -> Seq<(Seq<char>, JsonModel)> {
    client.credentials().push(("count"@, JsonModel::Number(listed(count) as int))).push(
        ("offset"@, JsonModel::Number(offset as int)),
    )
}

/// The members of a search: the query, the products and the client's public
/// key.
pub open spec fn search(client: Client, query: Seq<char>, products: Seq<&str>) -> Seq<
    (Seq<char>, JsonModel),
> {
    Seq::empty().push(("query"@, JsonModel::Text(query))).push(
        ("products"@, JsonModel::Texts(texts(products))),
    ).push(("public_key"@, JsonModel::Text(client.public_key@)))
}

/// The members of a request by id: the id and the client's public key.
pub open spec fn by_id(client: Client, id: Seq<char>) -> Seq<(Seq<char>, JsonModel)> {
    Seq::empty().push(("institution_id"@, JsonModel::Text(id))).push(
        ("public_key"@, JsonModel::Text(client.public_key@)),
    )
}

/// What listing institutions comes to: the credentials, the count (the
/// default where it is zero), the offset and the options, if there are any,
/// go to `/institutions/get`. Nothing is refused.
pub open spec fn get_institutions_plan(
    client: Client,
    count: u16,
    offset: u32,
    options: Option<GetInstitutionsRequestOptions>,
) -> Plan {
    Plan::Post {
        endpoint: "/institutions/get"@,
        body: JsonModel::Object(
            with_optional(
                listing(client, count, offset),
                "options"@,
                institutions_options(options),
            ),
        ),
    }
}

/// What searching institutions comes to: an empty query is refused;
/// otherwise the query, the products, the client's public key and the
/// options, if there are any, go to `/institutions/search`.
pub open spec fn search_institutions_plan(
    client: Client,
    query: Seq<char>,
    products: Seq<&str>,
    options: Option<SearchInstitutionsRequestOptions>,
) -> Plan {
    if query.len() == 0 {
        Plan::Refuse(Kind::EmptyQuery)
    } else {
        Plan::Post {
            endpoint: "/institutions/search"@,
            body: JsonModel::Object(
                with_optional(
                    search(client, query, products),
                    "options"@,
                    search_options(options),
                ),
            ),
        }
    }
}

/// What asking for one institution comes to: an empty id is refused;
/// otherwise the id, the client's public key and the options, if there are
/// any, go to `/institutions/get_by_id`.
pub open spec fn get_institution_by_id_plan(
    client: Client,
    id: Seq<char>,
    options: Option<GetInstitutionByIdRequestOptions>,
) -> Plan {
    if id.len() == 0 {
        Plan::Refuse(Kind::EmptyId)
    } else {
        Plan::Post {
            endpoint: "/institutions/get_by_id"@,
            body: JsonModel::Object(
                with_optional(by_id(client, id), "options"@, institution_by_id_options(options)),
            ),
        }
    }
}

/// Without options, a listing, a search and a request by id go to the same
/// endpoint as with them, with a body that has no member `options`.
pub proof fn without_options(
    client: Client,
    count: u16,
    offset: u32,
    query: Seq<char>,
    products: Seq<&str>,
    id: Seq<char>,
)
    ensures
        get_institutions_plan(client, count, offset, None) == (Plan::Post {
            endpoint: "/institutions/get"@,
            body: JsonModel::Object(listing(client, count, offset)),
        }),
        query.len() > 0 ==> search_institutions_plan(client, query, products, None) == (Plan::Post {
            endpoint: "/institutions/search"@,
            body: JsonModel::Object(search(client, query, products)),
        }),
        id.len() > 0 ==> get_institution_by_id_plan(client, id, None) == (Plan::Post {
            endpoint: "/institutions/get_by_id"@,
            body: JsonModel::Object(by_id(client, id)),
        }),
        !has_member(listing(client, count, offset), "options"@),
        !has_member(search(client, query, products), "options"@),
        !has_member(by_id(client, id), "options"@),
{
    reveal_strlit("client_id");
    reveal_strlit("secret");
    reveal_strlit("count");
    reveal_strlit("offset");
    reveal_strlit("query");
    reveal_strlit("products");
    reveal_strlit("public_key");
    reveal_strlit("institution_id");
    reveal_strlit("options");
    let a = listing(client, count, offset);
    assert forall|i: int| 0 <= i < a.len() implies (#[trigger] a[i]).0 != "options"@ by {
        assert(a[0].0.len() == 9);
        assert(a[1].0.len() == 6);
        assert(a[2].0.len() == 5);
        assert(a[3].0.len() == 6);
    }
    let b = search(client, query, products);
    assert forall|i: int| 0 <= i < b.len() implies (#[trigger] b[i]).0 != "options"@ by {
        assert(b[0].0.len() == 5);
        assert(b[1].0.len() == 8);
        assert(b[2].0.len() == 10);
    }
    let c = by_id(client, id);
    assert forall|i: int| 0 <= i < c.len() implies (#[trigger] c[i]).0 != "options"@ by {
        assert(c[0].0.len() == 14);
        assert(c[1].0.len() == 10);
    }
}

impl<'a> Client<'a> {
    /// The request for a page of the list of institutions: that of
    /// `get_institutions_with_options` without options.
    pub fn get_institutions(&self, count: u16, offset: u32) -> (outcome: Result<
        PostRequest,
        Error,
    >)
        ensures
            self.fulfils(get_institutions_plan(*self, count, offset, None), outcome),
    {
        self.get_institutions_with_options(count, offset, None)
    }

    /// The request for a page of the list of institutions: `count` of them
    /// from `offset` on. A count of zero asks for the default number.
    pub fn get_institutions_with_options(
        &self,
        count: u16,
        offset: u32,
        options: Option<GetInstitutionsRequestOptions>,
    ) -> (outcome: Result<PostRequest, Error>)
        ensures
            self.fulfils(get_institutions_plan(*self, count, offset, options), outcome),
    {
        let mut result_count = count;
        if result_count == 0 {
            result_count = DEFAULT_COUNT;
        }
        let mut members = self.begin();
        members.number("count", result_count as i64);
        members.number("offset", offset as i64);
        members.optional(
            "options",
            match options {
                Some(o) => Some(o.into_json()),
                None => None,
            },
        );
        self.post("/institutions/get", &members.into_json())
    }

    /// The request for the institutions that match a query: that of
    /// `search_institutions_with_options` without options.
    pub fn search_institutions(&self, query: &str, products: Vec<&str>) -> (outcome: Result<
        PostRequest,
        Error,
    >)
        ensures
            self.fulfils(search_institutions_plan(*self, query@, products@, None), outcome),
    {
        self.search_institutions_with_options(query, products, None)
    }

    /// The request for the institutions that match a query and offer the
    /// products. An empty query is refused as `EmptyQuery`.
    pub fn search_institutions_with_options(
        &self,
        query: &str,
        products: Vec<&str>,
        options: Option<SearchInstitutionsRequestOptions>,
    ) -> (outcome: Result<PostRequest, Error>)
        ensures
            self.fulfils(search_institutions_plan(*self, query@, products@, options), outcome),
    {
        if query.is_empty() {
            return Err(Error::new(Kind::EmptyQuery));
        }
        let mut members = Members::new();
        members.text("query", query);
        members.texts("products", products);
        members.text("public_key", self.public_key);
        members.optional(
            "options",
            match options {
                Some(o) => Some(o.into_json()),
                None => None,
            },
        );
        self.post("/institutions/search", &members.into_json())
    }

    /// The request for one institution: that of
    /// `get_institution_by_id_with_options` without options.
    pub fn get_institution_by_id(&self, id: &str) -> (outcome: Result<PostRequest, Error>)
        ensures
            self.fulfils(get_institution_by_id_plan(*self, id@, None), outcome),
    {
        self.get_institution_by_id_with_options(id, None)
    }

    /// The request for the institution of an id. An empty id is refused as
    /// `EmptyId`.
    pub fn get_institution_by_id_with_options(
        &self,
        id: &str,
        options: Option<GetInstitutionByIdRequestOptions>,
    ) -> (outcome: Result<PostRequest, Error>)
        ensures
            self.fulfils(get_institution_by_id_plan(*self, id@, options), outcome),
    {
        if id.is_empty() {
            return Err(Error::new(Kind::EmptyId));
        }
        let mut members = Members::new();
        members.text("institution_id", id);
        members.text("public_key", self.public_key);
        members.optional(
            "options",
            match options {
                Some(o) => Some(o.into_json()),
                None => None,
            },
        );
        self.post("/institutions/get_by_id", &members.into_json())
    }
}

} // verus!
