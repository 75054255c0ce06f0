//! The endpoints the client connects to: each service as an HTTPS URL and
//! its TLS domain name.

use vstd::prelude::*;

verus! {

/// One gRPC endpoint: its URL and its domain name.
#[derive(PartialEq, Debug)]
pub struct GrpcConnectionPoint(pub String, pub String);

/// The endpoint of a named service under the platform's API domain.
pub fn connection_point_for(domain: &str) -> (r: GrpcConnectionPoint)
    ensures
        r.0@ == "https://"@ + domain@,
        r.1@ == domain@,
{
    let mut url = String::from_str("https://");
    url.append(domain);
    GrpcConnectionPoint(url, String::from_str(domain))
}

/// The document database's endpoint.
pub fn firestore_connection_point() -> (r: GrpcConnectionPoint)
    ensures
        r.0@ == "https://"@ + "firestore.googleapis.com"@,
        r.1@ == "firestore.googleapis.com"@,
{
    connection_point_for("firestore.googleapis.com")
}

} // verus!
