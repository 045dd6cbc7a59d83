//! Stand-ins for the queries that only a desktop notification server can
//! answer, for platforms that have none.
use vstd::prelude::*;

use crate::error::Error;
use crate::text::owned;
use crate::ServerInformation;

verus! {

/// Lists the capabilities of the notification server: on a platform without
/// one, none.
pub fn get_capabilities() -> (r: Result<Vec<String>, Error>)
    ensures
        r matches Ok(caps) && caps@.len() == 0,
{
    Ok(Vec::new())
}

/// Describes the notification server: on a platform without one, every field
/// is `"unknown"`.
pub fn get_server_information() -> (r: Result<ServerInformation, Error>)
    ensures
        r matches Ok(info) && info.name@ == "unknown"@ && info.vendor@ == "unknown"@ && info.version@ == "unknown"@
            && info.spec_version@ == "unknown"@,
{
    Ok(
        ServerInformation {
            name: owned("unknown"),
            vendor: owned("unknown"),
            version: owned("unknown"),
            spec_version: owned("unknown"),
        },
    )
}

} // verus!
