//! The address of a subscription endpoint.

use vstd::prelude::*;
use vstd::string::StringExecFns;

verus! {

/// The host and the method identifier of an XRPC endpoint served over a
/// secure WebSocket.
#[derive(Debug, Clone, PartialEq, Eq)]
pub struct XrpcUri<'a> {
    base_uri: &'a str,
    nsid: &'a str,
}

impl<'a> XrpcUri<'a> {
    pub closed spec fn base_uri(&self) -> Seq<char> {
        self.base_uri@
    }

    pub closed spec fn nsid(&self) -> Seq<char> {
        self.nsid@
    }

    /// The text of the address: scheme, host, the fixed path segment and the
    /// method identifier.
    pub open spec fn uri(&self) -> Seq<char> {
        "wss://"@ + self.base_uri() + "/xrpc/"@ + self.nsid()
    }

    pub fn new(base_uri: &'a str, nsid: &'a str) -> (uri: Self)
        ensures
            uri.base_uri() == base_uri@,
            uri.nsid() == nsid@,
    {
        Self { base_uri, nsid }
    }

    pub fn to_uri(&self) -> (uri: String)
        ensures
            uri@ == self.uri(),
    {
        let mut uri = String::from_str("wss://");
        uri.append(self.base_uri);
        uri.append("/xrpc/");
        uri.append(self.nsid);
        uri
    }
}

} // verus!
