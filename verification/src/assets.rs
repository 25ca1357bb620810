//! Asset reports.

use crate::errors::{Error, Kind};
use crate::json::JsonModel;
use crate::plaid::{Client, Plan, PostRequest};
use vstd::prelude::*;

verus! {

/// What asking for an audit copy comes to: an empty report token or an empty
/// auditor id is refused; otherwise the credentials, the token and the id go
/// to `/asset_report/audit_copy/create`.
pub open spec fn create_audit_copy_plan(
    client: Client,
    asset_report_token: Seq<char>,
    auditor_id: Seq<char>,
) -> Plan {
    if asset_report_token.len() == 0 || auditor_id.len() == 0 {
        Plan::Refuse(Kind::ValidationError("asset report token and auditor id must be specified"))
    } else {
        Plan::Post {
            endpoint: "/asset_report/audit_copy/create"@,
            body: JsonModel::Object(
                client.with_token("asset_report_token"@, asset_report_token).push(
                    ("auditor_id"@, JsonModel::Text(auditor_id)),
                ),
            ),
        }
    }
}

impl<'a> Client<'a> {
    /// The request for an asset report. An empty token is refused as
    /// `EmptyToken`.
    pub fn get_asset_report(&self, asset_report_token: &str) -> (outcome: Result<
        PostRequest,
        Error,
    >)
        ensures
            self.fulfils(
                self.token_plan("/asset_report/get"@, "asset_report_token"@, asset_report_token@),
                outcome,
            ),
    {
        if asset_report_token.is_empty() {
            return Err(Error::new(Kind::EmptyToken));
        }
        let members = self.begin_with_token("asset_report_token", asset_report_token);
        self.post("/asset_report/get", &members.into_json())
    }

    /// The request for a copy of an asset report that an auditor may read.
    pub fn create_audit_copy(&self, asset_report_token: &str, auditor_id: &str) -> (outcome: Result<
        PostRequest,
        Error,
    >)
        ensures
            self.fulfils(
                create_audit_copy_plan(*self, asset_report_token@, auditor_id@),
                outcome,
            ),
    {
        if asset_report_token.is_empty() || auditor_id.is_empty() {
            return Err(
                Error::new(
                    Kind::ValidationError("asset report token and auditor id must be specified"),
                ),
            );
        }
        let mut members = self.begin_with_token("asset_report_token", asset_report_token);
        members.text("auditor_id", auditor_id);
        self.post("/asset_report/audit_copy/create", &members.into_json())
    }

    /// The request that removes an asset report. An empty token is refused as
    /// `EmptyToken`.
    pub fn remove_asset_report(&self, asset_report_token: &str) -> (outcome: Result<
        PostRequest,
        Error,
    >)
        ensures
            self.fulfils(
                self.token_plan(
                    "/asset_report/remove"@,
                    "asset_report_token"@,
                    asset_report_token@,
                ),
                outcome,
            ),
    {
        if asset_report_token.is_empty() {
            return Err(Error::new(Kind::EmptyToken));
        }
        let members = self.begin_with_token("asset_report_token", asset_report_token);
        self.post("/asset_report/remove", &members.into_json())
    }
}

} // verus!
