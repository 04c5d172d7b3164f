//! The registry of source connectors that pipelines can use.
use vstd::prelude::*;
use crate::text::str_equals;

verus! {

/// The type identifier of the connector that reads rows of a CSV file.
pub fn csv_connector_type() -> (r: &'static str)
    ensures
        r@ == "csv"@,
{
    "csv"
}

/// The type identifier of the connector that streams messages from a WebSocket endpoint.
pub fn websocket_connector_type() -> (r: &'static str)
    ensures
        r@ == "websocket"@,
{
    "websocket"
}

/// The type identifiers of all registered connectors.
pub open spec fn available_connector_types() -> Seq<Seq<char>> {
    seq!["csv"@, "websocket"@]
}

/// The type identifiers of all registered connectors, each once.
pub fn get_available_connector_types() -> (r: Vec<&'static str>)
    ensures
        r@.len() == available_connector_types().len(),
        forall|i: int| 0 <= i < r@.len() ==> #[trigger] r@[i]@ == available_connector_types()[i],
        forall|i: int, j: int| 0 <= i < j < r@.len() ==> r@[i]@ != r@[j]@,
{
    let mut r: Vec<&'static str> = Vec::new();
    r.push(csv_connector_type());
    r.push(websocket_connector_type());
    proof {
        reveal_strlit("csv");
        reveal_strlit("websocket");
        assert("csv"@.len() != "websocket"@.len());
    }
    r
}

/// Whether `connector_type` names a registered connector.
pub fn is_connector_available(connector_type: &str) -> (r: bool)
    ensures
        r == available_connector_types().contains(connector_type@),
{
    let types = get_available_connector_types();
    let mut i: usize = 0;
    while i < types.len()
        invariant
            i <= types@.len(),
            types@.len() == available_connector_types().len(),
            forall|k: int| 0 <= k < types@.len() ==> #[trigger] types@[k]@ == available_connector_types()[k],
            forall|k: int| 0 <= k < i ==> available_connector_types()[k] != connector_type@,
        decreases types.len() - i,
    {
        if str_equals(types[i], connector_type) {
            proof {
                assert(available_connector_types()[i as int] == connector_type@);
            }
            return true;
        }
        i = i + 1;
    }
    false
}

/// A connector type is reported available exactly when the listing of
/// available connector types holds it.
pub proof fn lemma_available_matches_listing(listed: Seq<&str>, connector_type: Seq<char>)
    requires
        listed.len() == available_connector_types().len(),
        forall|i: int| 0 <= i < listed.len() ==> #[trigger] listed[i]@ == available_connector_types()[i],
    ensures
        available_connector_types().contains(connector_type) <==> exists|i: int|
            0 <= i < listed.len() && #[trigger] listed[i]@ == connector_type,
{
    if available_connector_types().contains(connector_type) {
        let k = choose|k: int| 0 <= k < available_connector_types().len() && available_connector_types()[k] == connector_type;
        assert(listed[k]@ == connector_type);
    }
    if exists|i: int| 0 <= i < listed.len() && #[trigger] listed[i]@ == connector_type {
        let k = choose|k: int| 0 <= k < listed.len() && #[trigger] listed[k]@ == connector_type;
        assert(available_connector_types()[k] == connector_type);
    }
}

} // verus!
