//! The proxy that serves the terminal over HTTP: where its resources are, and
//! how a request names its bearer.

use vstd::prelude::*;
use vstd::string::StringExecFns;

verus! {

/// A resource of the proxy.
#[derive(Clone, Copy, Debug, PartialEq, Eq, Structural)]
pub enum Endpoint {
    /// Takes credentials and answers with a token.
    Login,
    /// The record of the trading account; asks for the token.
    Account,
    /// The record of the terminal.
    Terminal,
    /// The version of the terminal.
    TerminalVersion,
}

impl Endpoint {
    /// The path of the resource below the proxy's address.
    pub open spec fn spec_path(self) -> Seq<char> {
        match self {
            Endpoint::Login => "/security/login"@,
            Endpoint::Account => "/account/"@,
            Endpoint::Terminal => "/terminal/"@,
            Endpoint::TerminalVersion => "/terminal/version"@,
        }
    }

    pub fn path(self) -> (path: &'static str)
        ensures
            path@ == self.spec_path(),
    {
        match self {
            Endpoint::Login => "/security/login",
            Endpoint::Account => "/account/",
            Endpoint::Terminal => "/terminal/",
            Endpoint::TerminalVersion => "/terminal/version",
        }
    }

    /// The address of the resource at the proxy whose address is `base`: the
    /// two joined, with nothing added or taken away.
    pub fn url(self, base: &str) -> (url: String)
        ensures
            url@ == base@ + self.spec_path(),
    {
        base.to_owned().concat(self.path())
    }
}

/// The name of the header that carries the token.
pub fn authorization_header() -> (name: &'static str)
    ensures
        name@ == "Authorization"@,
{
    "Authorization"
}

/// The value of that header for the token `token`.
pub fn bearer(token: &str) -> (value: String)
    ensures
        value@ == "Bearer "@ + token@,
{
    "Bearer ".to_owned().concat(token)
}

} // verus!
