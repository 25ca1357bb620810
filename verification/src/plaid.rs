//! The client: whose credentials a request carries, and where it is sent.

use crate::environments::Environment;
use crate::errors::{Error, Kind};
use crate::json::{has_member, rendered, with_optional, Json, JsonModel, Members};
use reqwest::Error as TransportError;
use serde_json::Error as JsonError;
use vstd::prelude::*;
use vstd::string::*;

verus! {

/// The credentials of a client and the environment that it talks to. All four
/// are chosen once, when the client is made.
pub struct Client<'a> {
    pub client_id: &'a str,
    pub secret: &'a str,
    pub public_key: &'a str,
    pub environment: Environment,
}

/// One header of a request.
#[derive(Clone, Copy, Debug, PartialEq, Eq)]
pub struct Header {
    pub name: &'static str,
    pub value: &'static str,
}

/// An HTTP POST that is ready to be sent.
#[derive(Debug, PartialEq, Eq)]
pub struct PostRequest {
    pub url: String,
    pub headers: Vec<Header>,
    pub body: String,
}

/// What a [`PostRequest`] stands for.
pub struct PostModel {
    pub url: Seq<char>,
    pub headers: Seq<(Seq<char>, Seq<char>)>,
    pub body: Seq<char>,
}

impl View for Header {
    type V = (Seq<char>, Seq<char>);

    open spec fn view(&self) -> (Seq<char>, Seq<char>) {
        (self.name@, self.value@)
    }
}

impl View for PostRequest {
    type V = PostModel;

    open spec fn view(&self) -> PostModel {
        PostModel {
            url: self.url@,
            headers: Seq::new(self.headers@.len(), |i: int| self.headers@[i]@),
            body: self.body@,
        }
    }
}

/// The path of an endpoint: the endpoint itself if it begins with a slash,
/// else the endpoint behind a slash.
pub open spec fn normalized(endpoint: Seq<char>) -> Seq<char> {
    if endpoint.len() > 0 && endpoint[0] == '/' {
        endpoint
    } else {
        "/"@ + endpoint
    }
}

/// The address of an endpoint in an environment.
pub open spec fn address(environment: Environment, endpoint: Seq<char>) -> Seq<char> {
    "https://"@ + environment.host_name() + normalized(endpoint)
}

/// The headers that every request carries, in the order in which they are set.
pub open spec fn standard_headers() -> Seq<(Seq<char>, Seq<char>)> {
    seq![
        ("Content-Type"@, "application/json"@),
        ("User-Agent"@, "Plaid Rust v0.0.1"@),
        ("Plaid-Version"@, "2019-05-29"@),
    ]
}

/// The POST of `body` to an endpoint in an environment.
pub open spec fn post_of(
    environment: Environment,
    endpoint: Seq<char>,
    body: Seq<char>,
) -> PostModel {
    PostModel { url: address(environment, endpoint), headers: standard_headers(), body }
}

/// What an operation decides on its arguments, before anything is sent.
pub enum Plan {
    /// The arguments are refused, for this reason.
    Refuse(Kind),
    /// This body goes to this endpoint.
    Post { endpoint: Seq<char>, body: JsonModel },
}

impl<'a> Client<'a> {
    /// Whether `outcome` is what carrying out `plan` gives.
    ///
    /// A refusal comes back as the error of that kind. Otherwise a request is
    /// made: the POST of the rendered body to the endpoint.
    pub open spec fn fulfils(self, plan: Plan, outcome: Result<PostRequest, Error>) -> bool {
        match plan {
            Plan::Refuse(kind) => outcome matches Err(e) && e@ == kind,
            Plan::Post { endpoint, body } => outcome matches Ok(request) && request@ == post_of(
                self.environment,
                endpoint,
                rendered(body),
            ),
        }
    }

    /// The members that every request made with the client's secret begins
    /// with.
    pub open spec fn credentials(self) -> Seq<(Seq<char>, JsonModel)> {
        Seq::empty().push(("client_id"@, JsonModel::Text(self.client_id@))).push(
            ("secret"@, JsonModel::Text(self.secret@)),
        )
    }

    /// The members of a request that names one token next to the credentials.
    pub open spec fn with_token(self, name: Seq<char>, token: Seq<char>) -> Seq<
        (Seq<char>, JsonModel),
    > {
        self.credentials().push((name, JsonModel::Text(token)))
    }

    /// The members of a request about the item that `access_token` stands for.
    pub open spec fn for_item(self, access_token: Seq<char>) -> Seq<(Seq<char>, JsonModel)> {
        self.with_token("access_token"@, access_token)
    }

    /// What an operation on one token comes to: an empty token is refused;
    /// otherwise the credentials and the token, under `name`, go to
    /// `endpoint`.
    pub open spec fn token_plan(
        self,
        endpoint: Seq<char>,
        name: Seq<char>,
        token: Seq<char>,
    ) -> Plan {
        if token.len() == 0 {
            Plan::Refuse(Kind::EmptyToken)
        } else {
            Plan::Post { endpoint, body: JsonModel::Object(self.with_token(name, token)) }
        }
    }

    /// What an operation on an item comes to: an empty access token is
    /// refused; otherwise the credentials, the token and the options, if there
    /// are any, go to `endpoint`.
    pub open spec fn item_plan(
        self,
        endpoint: Seq<char>,
        access_token: Seq<char>,
        options: Option<JsonModel>,
    ) -> Plan {
        if access_token.len() == 0 {
            Plan::Refuse(Kind::EmptyToken)
        } else {
            Plan::Post {
                endpoint,
                body: JsonModel::Object(
                    with_optional(self.for_item(access_token), "options"@, options),
                ),
            }
        }
    }

    /// Begins a request body with the client's id and secret.
    pub fn begin<'b>(&'b self) -> (members: Members<'b>)
        ensures
            members@ == self.credentials(),
    {
        let mut members = Members::new();
        members.text("client_id", self.client_id);
        members.text("secret", self.secret);
        members
    }

    /// Begins a request body with the credentials and one token.
    pub fn begin_with_token<'b>(&'b self, name: &'b str, token: &'b str) -> (members: Members<'b>)
        ensures
            members@ == self.with_token(name@, token@),
    {
        let mut members = self.begin();
        members.text(name, token);
        members
    }

    /// Begins a request body about an item.
    pub fn begin_for_item<'b>(&'b self, access_token: &'b str) -> (members: Members<'b>)
        ensures
            members@ == self.for_item(access_token@),
    {
        self.begin_with_token("access_token", access_token)
    }

    /// The address of an endpoint in the client's environment.
    pub fn url(&self, endpoint: &str) -> (url: String)
        ensures
            url@ == address(self.environment, endpoint@),
    {
        let mut url = String::from_str("https://");
        url.append(self.environment.host());
        if endpoint.is_empty() || endpoint.get_char(0) != '/' {
            url.append("/");
        }
        url.append(endpoint);
        url
    }

    /// Makes the POST of `body` to `endpoint`.
    pub fn new_request(&self, endpoint: &str, body: &str) -> (request: PostRequest)
        ensures
            request@ == post_of(self.environment, endpoint@, body@),
    {
        let mut headers: Vec<Header> = Vec::new();
        headers.push(Header { name: "Content-Type", value: "application/json" });
        headers.push(Header { name: "User-Agent", value: "Plaid Rust v0.0.1" });
        headers.push(Header { name: "Plaid-Version", value: "2019-05-29" });
        let request = PostRequest {
            url: self.url(endpoint),
            headers,
            body: String::from_str(body),
        };
        proof {
            assert(request@.headers =~= standard_headers());
        }
        request
    }

    /// Renders `body` and makes the POST of it to `endpoint`.
    pub fn post(&self, endpoint: &str, body: &Json) -> (outcome: Result<PostRequest, Error>)
        ensures
            self.fulfils(Plan::Post { endpoint: endpoint@, body: body@ }, outcome),
    {
        match body.render() {
            Ok(text) => Ok(self.new_request(endpoint, text.as_str())),
            Err(e) => Err(e),
        }
    }
}

/// A path that `normalized` gives begins with a slash, and normalising it
/// again changes nothing.
pub proof fn normalized_begins_with_slash(endpoint: Seq<char>)
    ensures
        normalized(endpoint).len() > 0,
        normalized(endpoint)[0] == '/',
        normalized(normalized(endpoint)) == normalized(endpoint),
        endpoint.len() > 0 && endpoint[0] == '/' ==> normalized(endpoint) == endpoint,
{
    reveal_strlit("/");
}

/// Refused arguments give the error of the refusal and nothing else: no
/// request is made of them.
pub proof fn refusal_makes_no_request(
    client: Client,
    kind: Kind,
    outcome: Result<PostRequest, Error>,
)
    requires
        client.fulfils(Plan::Refuse(kind), outcome),
    ensures
        outcome is Err,
        outcome->Err_0@ == kind,
{
}

/// An empty token is refused as `EmptyToken`, whatever the endpoint and the
/// options.
pub proof fn empty_token_is_refused(
    client: Client,
    endpoint: Seq<char>,
    name: Seq<char>,
    options: Option<JsonModel>,
)
    ensures
        client.token_plan(endpoint, name, Seq::empty()) == Plan::Refuse(Kind::EmptyToken),
        client.item_plan(endpoint, Seq::empty(), options) == Plan::Refuse(Kind::EmptyToken),
{
}

/// A request about an item without options is the request with the
/// credentials and the access token alone: the same endpoint, and a body that
/// has no member `options`.
pub proof fn without_options(client: Client, endpoint: Seq<char>, access_token: Seq<char>)
    ensures
        client.item_plan(endpoint, access_token, None) == client.token_plan(
            endpoint,
            "access_token"@,
            access_token,
        ),
        !has_member(client.for_item(access_token), "options"@),
{
    reveal_strlit("client_id");
    reveal_strlit("secret");
    reveal_strlit("access_token");
    reveal_strlit("options");
    let members = client.for_item(access_token);
    assert forall|i: int| 0 <= i < members.len() implies (#[trigger] members[i]).0
        != "options"@ by {
        assert(members[0].0.len() == 9);
        assert(members[1].0.len() == 6);
        assert(members[2].0.len() == 12);
    }
}

/// A plan to post is fulfilled by one request only: that of the endpoint's
/// address, the standard headers and the text of the body.
pub proof fn one_request_per_plan(
    client: Client,
    endpoint: Seq<char>,
    body: JsonModel,
    first: Result<PostRequest, Error>,
    second: Result<PostRequest, Error>,
)
    requires
        client.fulfils(Plan::Post { endpoint, body }, first),
        client.fulfils(Plan::Post { endpoint, body }, second),
    ensures
        first is Ok,
        second is Ok,
        first->Ok_0@ == second->Ok_0@,
        first->Ok_0@.url == address(client.environment, endpoint),
        first->Ok_0@.headers == standard_headers(),
        first->Ok_0@.body == rendered(body),
{
}

/// What a call returns once the request has been sent: the decoded answer, or
/// the failure of the transport as an error of the kind `Reqwest`, or the
/// failure of the decoding as an error of the kind `Json`.
pub fn conclude<T>(answer: Result<Result<T, JsonError>, TransportError>) -> (outcome: Result<
    T,
    Error,
>)
    ensures
        match answer {
            Ok(Ok(value)) => outcome == Ok::<T, Error>(value),
            Ok(Err(e)) => outcome matches Err(error) && error@ == Kind::Json(e),
            Err(e) => outcome matches Err(error) && error@ == Kind::Reqwest(e),
        },
{
    match answer {
        Ok(Ok(value)) => Ok(value),
        Ok(Err(e)) => Err(Error::new(Kind::Json(e))),
        Err(e) => Err(Error::new(Kind::Reqwest(e))),
    }
}

} // verus!
