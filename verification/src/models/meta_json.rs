//! What a server's administrators say of it in `cvmfs/info/v1/meta.json`.

use vstd::prelude::*;

verus! {

/// A JSON value of serde_json. The library carries it and never looks inside.
#[verifier::external_type_specification]
#[verifier::external_body]
pub struct ExJsonValue(serde_json::Value);

/// The contact points of a server, and whatever else its administrators chose to
/// publish under `custom`.
#[derive(Debug, PartialEq)]
pub struct MetaJSON {
    pub administrator: String,
    pub email: String,
    pub organisation: String,
    pub custom: serde_json::Value,
}

} // verus!
