use plaid::accounts::{GetAccountsRequestOptions, GetBalancesRequestOptions};
use plaid::auth::GetAuthRequestOptions;
use plaid::environments::Environment;
use plaid::holdings::GetHoldingsRequestOptions;
use plaid::plaid::Client;

const SANDBOX_TOKEN_BODY: &str = "{\"institution_id\":\"ins_109508\",\"initial_products\":[\"auth\",\"identity\",\"income\",\"transactions\"],\"public_key\":\"PLAID_PUBLIC_KEY\"}";

fn test_client() -> Client<'static> {
    Client {
        client_id: "PLAID_CLIENT_ID",
        secret: "PLAID_SECRET",
        public_key: "PLAID_PUBLIC_KEY",
        environment: Environment::SANDBOX,
    }
}

fn for_item(access_token: &str) -> String {
    format!(
        "{{\"client_id\":\"PLAID_CLIENT_ID\",\"secret\":\"PLAID_SECRET\",\"access_token\":\"{}\"}}",
        access_token
    )
}

fn chosen(access_token: &str, account_id: &str) -> String {
    format!(
        "{{\"client_id\":\"PLAID_CLIENT_ID\",\"secret\":\"PLAID_SECRET\",\"access_token\":\"{}\",\"options\":{{\"account_ids\":[\"{}\"]}}}}",
        access_token, account_id
    )
}

fn sandbox_and_exchange(client: &Client, products: &[&str], expected: &str) {
    let sandbox = client.create_sandbox_public_token("ins_109508", products).unwrap();
    assert_eq!(sandbox.url, "https://sandbox.plaid.com/sandbox/public_token/create");
    assert_eq!(sandbox.body, expected);
    let exchange = client.exchange_public_token("public-sandbox-1").unwrap();
    assert_eq!(exchange.url, "https://sandbox.plaid.com/item/public_token/exchange");
    assert_eq!(
        exchange.body,
        "{\"client_id\":\"PLAID_CLIENT_ID\",\"secret\":\"PLAID_SECRET\",\"public_token\":\"public-sandbox-1\"}"
    );
}

#[test]
fn accounts_flow_prepares_each_request() {
    let test_client = test_client();
    sandbox_and_exchange(
        &test_client,
        &["auth", "identity", "income", "transactions"],
        SANDBOX_TOKEN_BODY,
    );

    let accounts = test_client.get_accounts("access-sandbox-1").unwrap();
    assert_eq!(accounts.url, "https://sandbox.plaid.com/accounts/get");
    assert_eq!(accounts.body, for_item("access-sandbox-1"));

    let filtered = test_client
        .get_accounts_with_options(
            "access-sandbox-1",
            Some(GetAccountsRequestOptions { account_ids: Some(vec!["account-1"]) }),
        )
        .unwrap();
    assert_eq!(filtered.url, "https://sandbox.plaid.com/accounts/get");
    assert_eq!(filtered.body, chosen("access-sandbox-1", "account-1"));
}

#[test]
fn balances_flow_prepares_each_request() {
    let test_client = test_client();
    sandbox_and_exchange(
        &test_client,
        &["auth", "identity", "income", "transactions"],
        SANDBOX_TOKEN_BODY,
    );

    let balances = test_client.get_balances("access-sandbox-1").unwrap();
    assert_eq!(balances.url, "https://sandbox.plaid.com/accounts/balance/get");
    assert_eq!(balances.body, for_item("access-sandbox-1"));

    let filtered = test_client
        .get_balances_with_options(
            "access-sandbox-1",
            Some(GetBalancesRequestOptions { account_ids: Some(vec!["account-1"]) }),
        )
        .unwrap();
    assert_eq!(filtered.url, "https://sandbox.plaid.com/accounts/balance/get");
    assert_eq!(filtered.body, chosen("access-sandbox-1", "account-1"));
}

#[test]
fn auth_flow_prepares_each_request() {
    let test_client = test_client();
    sandbox_and_exchange(
        &test_client,
        &["auth", "identity", "income", "transactions"],
        SANDBOX_TOKEN_BODY,
    );

    let auth = test_client.get_auth("access-sandbox-1").unwrap();
    assert_eq!(auth.url, "https://sandbox.plaid.com/auth/get");
    assert_eq!(auth.body, for_item("access-sandbox-1"));

    let filtered = test_client
        .get_auth_with_options(
            "access-sandbox-1",
            Some(GetAuthRequestOptions { account_ids: Some(vec!["account-1"]) }),
        )
        .unwrap();
    assert_eq!(filtered.url, "https://sandbox.plaid.com/auth/get");
    assert_eq!(filtered.body, chosen("access-sandbox-1", "account-1"));
}

#[test]
fn categories_request_needs_no_token() {
    let categories = test_client().get_categories();
    assert_eq!(categories.url, "https://sandbox.plaid.com/categories/get");
    assert_eq!(categories.body, "null");
}

#[test]
fn holdings_flow_prepares_each_request() {
    let test_client = test_client();
    sandbox_and_exchange(
        &test_client,
        &["investments"],
        "{\"institution_id\":\"ins_109508\",\"initial_products\":[\"investments\"],\"public_key\":\"PLAID_PUBLIC_KEY\"}",
    );

    let holdings = test_client.get_holdings("access-sandbox-1").unwrap();
    assert_eq!(holdings.url, "https://sandbox.plaid.com/investments/holdings/get");
    assert_eq!(holdings.body, for_item("access-sandbox-1"));

    let filtered = test_client
        .get_holdings_with_options(
            "access-sandbox-1",
            Some(GetHoldingsRequestOptions { account_ids: Some(vec!["account-1"]) }),
        )
        .unwrap();
    assert_eq!(filtered.url, "https://sandbox.plaid.com/investments/holdings/get");
    assert_eq!(filtered.body, chosen("access-sandbox-1", "account-1"));
}

#[test]
fn identity_flow_prepares_each_request() {
    let test_client = test_client();
    sandbox_and_exchange(
        &test_client,
        &["auth", "identity", "income", "transactions"],
        SANDBOX_TOKEN_BODY,
    );

    let identity = test_client.get_identity("access-sandbox-1").unwrap();
    assert_eq!(identity.url, "https://sandbox.plaid.com/identity/get");
    assert_eq!(identity.body, for_item("access-sandbox-1"));
}

#[test]
fn income_flow_prepares_each_request() {
    let test_client = test_client();
    sandbox_and_exchange(
        &test_client,
        &["auth", "identity", "income", "transactions"],
        SANDBOX_TOKEN_BODY,
    );

    let income = test_client.get_income("access-sandbox-1").unwrap();
    assert_eq!(income.url, "https://sandbox.plaid.com/income/get");
    assert_eq!(income.body, for_item("access-sandbox-1"));
}
