use vstd::prelude::*;

verus! {

/// The deployment of the service that a client talks to.
#[derive(Clone, Copy, Debug)]
pub enum Environment {
    SANDBOX,
    DEVELOPMENT,
    PRODUCTION,
}

impl Environment {
    /// The host name of this environment.
    pub open spec fn host_name(self) -> Seq<char> {
        match self {
            Environment::SANDBOX => "sandbox.plaid.com"@,
            Environment::DEVELOPMENT => "development.plaid.com"@,
            Environment::PRODUCTION => "production.plaid.com"@,
        }
    }

    pub fn host(&self) -> (name: &str)
        ensures
            name@ == self.host_name(),
    {
        match self {
            Environment::SANDBOX => "sandbox.plaid.com",
            Environment::DEVELOPMENT => "development.plaid.com",
            Environment::PRODUCTION => "production.plaid.com",
        }
    }
}

/// No two environments share a host.
pub proof fn hosts_are_distinct(a: Environment, b: Environment)
    ensures
        a.host_name() == b.host_name() ==> a == b,
{
    reveal_strlit("sandbox.plaid.com");
    reveal_strlit("development.plaid.com");
    reveal_strlit("production.plaid.com");
    assert("sandbox.plaid.com"@[0] == 's');
    assert("development.plaid.com"@[0] == 'd');
}

} // verus!
