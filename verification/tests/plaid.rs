use plaid::environments::Environment;
use plaid::errors::{Error, Kind};
use plaid::plaid::{conclude, Client, Header};

fn client_in(environment: Environment) -> Client<'static> {
    Client { client_id: "my-client", secret: "my-secret", public_key: "my-key", environment }
}

/// The shape of an answer that lists accounts.
#[derive(Debug)]
struct AccountsAnswer {
    request_id: String,
    accounts: Vec<serde_json::Value>,
}

impl<'de> serde::Deserialize<'de> for AccountsAnswer {
    fn deserialize<D>(deserializer: D) -> Result<AccountsAnswer, D::Error>
    where
        D: serde::Deserializer<'de>,
    {
        let mut fields =
            std::collections::HashMap::<String, serde_json::Value>::deserialize(deserializer)?;
        let request_id = match fields.remove("request_id") {
            Some(serde_json::Value::String(id)) => id,
            Some(_) => return Err(serde::de::Error::custom("request_id is not a string")),
            None => return Err(serde::de::Error::missing_field("request_id")),
        };
        let accounts = match fields.remove("accounts") {
            Some(serde_json::Value::Array(items)) => items,
            Some(_) => return Err(serde::de::Error::custom("accounts is not an array")),
            None => return Err(serde::de::Error::missing_field("accounts")),
        };
        Ok(AccountsAnswer { request_id, accounts })
    }
}

fn transport_failure() -> reqwest::Error {
    reqwest::Client::new().get("not an address").build().err().unwrap()
}

#[test]
fn each_environment_has_its_host() {
    assert_eq!(Environment::SANDBOX.host(), "sandbox.plaid.com");
    assert_eq!(Environment::DEVELOPMENT.host(), "development.plaid.com");
    assert_eq!(Environment::PRODUCTION.host(), "production.plaid.com");
}

#[test]
fn url_is_https_host_and_path() {
    assert_eq!(
        client_in(Environment::SANDBOX).url("/accounts/get"),
        "https://sandbox.plaid.com/accounts/get"
    );
    assert_eq!(
        client_in(Environment::DEVELOPMENT).url("/item/get"),
        "https://development.plaid.com/item/get"
    );
    assert_eq!(
        client_in(Environment::PRODUCTION).url("/item/get"),
        "https://production.plaid.com/item/get"
    );
}

#[test]
fn url_puts_a_slash_before_a_path_that_has_none() {
    let client = client_in(Environment::SANDBOX);
    assert_eq!(client.url("accounts/get"), "https://sandbox.plaid.com/accounts/get");
    assert_eq!(client.url("/accounts/get"), "https://sandbox.plaid.com/accounts/get");
    assert_eq!(client.url(""), "https://sandbox.plaid.com/");
    assert_eq!(client.url("/"), "https://sandbox.plaid.com/");
    assert_eq!(client.url("//x"), "https://sandbox.plaid.com//x");
    assert_eq!(client.url("\u{e9}t\u{e9}"), "https://sandbox.plaid.com/\u{e9}t\u{e9}");
}

#[test]
fn new_request_carries_the_body_and_the_three_headers() {
    let request = client_in(Environment::PRODUCTION).new_request("categories/get", "{\"a\":1}");
    assert_eq!(request.url, "https://production.plaid.com/categories/get");
    assert_eq!(request.body, "{\"a\":1}");
    assert_eq!(
        request.headers,
        vec![
            Header { name: "Content-Type", value: "application/json" },
            Header { name: "User-Agent", value: "Plaid Rust v0.0.1" },
            Header { name: "Plaid-Version", value: "2019-05-29" },
        ]
    );
}

#[test]
fn begin_writes_client_id_and_secret_first() {
    let client = client_in(Environment::SANDBOX);
    assert_eq!(
        client.begin().into_json().render().unwrap(),
        "{\"client_id\":\"my-client\",\"secret\":\"my-secret\"}"
    );
    assert_eq!(
        client.begin_with_token("public_token", "p").into_json().render().unwrap(),
        "{\"client_id\":\"my-client\",\"secret\":\"my-secret\",\"public_token\":\"p\"}"
    );
    assert_eq!(
        client.begin_for_item("a").into_json().render().unwrap(),
        "{\"client_id\":\"my-client\",\"secret\":\"my-secret\",\"access_token\":\"a\"}"
    );
}

#[test]
fn post_renders_the_body_and_addresses_it() {
    let client = client_in(Environment::SANDBOX);
    let body = client.begin_for_item("tok").into_json();
    let request = client.post("item/get", &body).unwrap();
    assert_eq!(request.url, "https://sandbox.plaid.com/item/get");
    assert_eq!(
        request.body,
        "{\"client_id\":\"my-client\",\"secret\":\"my-secret\",\"access_token\":\"tok\"}"
    );
    assert_eq!(request.headers.len(), 3);
}

#[test]
fn error_keeps_its_kind() {
    assert!(matches!(Error::new(Kind::EmptyId).kind(), Kind::EmptyId));
    assert!(matches!(Error::new(Kind::EmptyQuery).kind(), Kind::EmptyQuery));
    assert!(matches!(Error::new(Kind::EmptyToken).kind(), Kind::EmptyToken));
    assert!(matches!(
        Error::new(Kind::ValidationError("both are needed")).into_kind(),
        Kind::ValidationError("both are needed")
    ));
    assert!(matches!(Error::new(Kind::Reqwest(transport_failure())).kind(), Kind::Reqwest(_)));
    let broken = serde_json::from_str::<serde_json::Value>("{").err().unwrap();
    assert!(matches!(Error::new(Kind::Json(broken)).into_kind(), Kind::Json(_)));
}

#[test]
fn conclude_hands_a_decoded_answer_on() {
    let decoded = serde_json::from_str::<serde_json::Value>(
        "{\"request_id\":\"abc\",\"accounts\":[],\"categories\":[]}",
    );
    let answer = conclude(Ok(decoded)).unwrap();
    assert_eq!(answer["request_id"].as_str(), Some("abc"));
    assert!(answer["accounts"].as_array().unwrap().is_empty());
    assert!(answer["categories"].as_array().unwrap().is_empty());
}

#[test]
fn conclude_reports_a_malformed_answer_as_json_error() {
    let truncated = serde_json::from_str::<serde_json::Value>("{\"request_id\":");
    let error = conclude(Ok(truncated)).err().unwrap();
    assert!(matches!(error.kind(), Kind::Json(_)));

    let wrong_shape = serde_json::from_str::<Vec<String>>("{\"request_id\":\"abc\"}");
    let error = conclude(Ok(wrong_shape)).err().unwrap();
    match error.into_kind() {
        Kind::Json(inner) => assert!(inner.is_data()),
        other => panic!("a decoding failure came back as {:?}", other),
    }
}

#[test]
fn conclude_reports_a_failed_transport_as_reqwest_error() {
    let answer: Result<Result<String, serde_json::Error>, reqwest::Error> =
        Err(transport_failure());
    let error = conclude(answer).err().unwrap();
    match error.into_kind() {
        Kind::Reqwest(inner) => assert!(inner.is_builder()),
        other => panic!("a transport failure came back as {:?}", other),
    }
}

#[test]
fn a_known_answer_decodes_into_its_shape() {
    let decoded = serde_json::from_str::<AccountsAnswer>("{\"request_id\":\"abc\",\"accounts\":[]}");
    let answer = conclude(Ok(decoded)).unwrap();
    assert_eq!(answer.request_id, "abc");
    assert!(answer.accounts.is_empty());
}

#[test]
fn an_answer_without_a_required_field_is_a_json_error() {
    let decoded = serde_json::from_str::<AccountsAnswer>("{\"request_id\":\"abc\"}");
    match conclude(Ok(decoded)).unwrap_err().into_kind() {
        Kind::Json(inner) => assert!(inner.to_string().contains("accounts")),
        other => panic!("a missing field came back as {:?}", other),
    }
    let decoded = serde_json::from_str::<AccountsAnswer>("{\"accounts\":[]}");
    assert!(matches!(conclude(Ok(decoded)).unwrap_err().kind(), Kind::Json(_)));
    let decoded = serde_json::from_str::<AccountsAnswer>("not json at all");
    assert!(matches!(conclude(Ok(decoded)).unwrap_err().kind(), Kind::Json(_)));
}
