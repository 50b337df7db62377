use vstd::prelude::*;

use crate::error::VerifierError;

verus! {

/// The resolved command-line configuration of a verification run.
#[derive(Clone, Debug, PartialEq, Eq)]
pub struct CliArgs {
    /// The contract source directory.
    pub source: String,
    /// The address of the deployed contract.
    pub address: String,
    /// The network the contract is deployed on.
    pub network: String,
}

/// The string that a JSON text holds at `contract_class.id`, as
/// `serde_json` parses it; `None` when the text is not JSON or holds no
/// string there.
pub uninterp spec fn class_id_of(json: Seq<char>) -> Option<Seq<char>>;

/// Relies on `serde_json::from_str` to parse the text into a `Value`, and on
/// `Value::get` and `Value::as_str` to look up `contract_class.id`.
#[verifier::external_body]
fn parse_class_id(json: &str) -> (r: Option<String>)
    ensures
        r matches Some(id) ==> class_id_of(json@) == Some(id@),
        r is None ==> class_id_of(json@) is None,
{
    let v: serde_json::Value = serde_json::from_str(json).ok()?;
    v.get("contract_class")?.get("id")?.as_str().map(|s| s.to_string())
}

/// The class identifier from the looked-up `contract_class.id` of an
/// artifact, or `MalformedArtifact` when there was none.
pub fn class_id_from(found: Option<String>) -> (r: Result<String, VerifierError>)
    ensures
        found matches Some(id) ==> r == Ok::<String, VerifierError>(id),
        found is None ==> r matches Err(VerifierError::MalformedArtifact),
{
    match found {
        Some(id) => Ok(id),
        None => Err(VerifierError::MalformedArtifact),
    }
}

/// The contract class identifier recorded in an artifact's JSON text, at
/// `contract_class.id`.
pub fn extract_contract_class_id(json: &str) -> (r: Result<String, VerifierError>)
    ensures
        class_id_of(json@) matches Some(id) ==> (r matches Ok(x) && x@ == id),
        class_id_of(json@) is None ==> r matches Err(VerifierError::MalformedArtifact),
{
    class_id_from(parse_class_id(json))
}

} // verus!
