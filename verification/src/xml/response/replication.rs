use vstd::prelude::*;

use crate::error::{ErrorV, IikoError};
use crate::text::{trim, trim_seq};

verus! {

/// The kind of server answering the replication endpoint.
#[derive(Debug, Clone, PartialEq, Eq, Structural)]
pub enum ServerType {
    Chain,
    ReplicatedRms,
    StandaloneRms,
}

/// The server kind named by a response body, once trimmed: one of the three
/// known wire names, or the generic API error carrying the unknown name.
pub open spec fn spec_parse_server_type(s: Seq<char>) -> Result<ServerType, ErrorV> {
    let t = trim_seq(s);
    if t == "CHAIN"@ {
        Ok(ServerType::Chain)
    } else if t == "REPLICATED_RMS"@ {
        Ok(ServerType::ReplicatedRms)
    } else if t == "STANDALONE_RMS"@ {
        Ok(ServerType::StandaloneRms)
    } else {
        Err(ErrorV::Api("Unknown server type: "@ + t))
    }
}

/// Read the server kind out of the text the server-type endpoint returns.
/// Whitespace around the name is ignored; an unknown name is the generic
/// API error naming it.
pub fn parse_server_type(value: &str) -> (r: Result<ServerType, IikoError>)
    ensures
        spec_parse_server_type(value@) matches Ok(t) ==> r == Ok::<ServerType, IikoError>(t),
        spec_parse_server_type(value@) matches Err(e) ==> r matches Err(err) && err@ == e,
{
    let t = trim(value);
    if t == String::from_str("CHAIN") {
        Ok(ServerType::Chain)
    } else if t == String::from_str("REPLICATED_RMS") {
        Ok(ServerType::ReplicatedRms)
    } else if t == String::from_str("STANDALONE_RMS") {
        Ok(ServerType::StandaloneRms)
    } else {
        let mut message = String::from_str("Unknown server type: ");
        message.append(t.as_str());
        Err(IikoError::Api(message))
    }
}

} // verus!
