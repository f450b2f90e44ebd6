use vstd::prelude::*;

use crate::handle::ProviderHandle;

verus! {

/// What the service reports about itself.
#[derive(Debug)]
pub struct AnnilInfo {
    pub version: String,
    pub protocol_version: String,
    /// When the provider in service was built or reloaded.
    pub last_update: u64,
}

impl AnnilInfo {
    /// The report for the provider that `handle` holds now.
    pub fn of<P>(version: String, protocol_version: String, handle: &ProviderHandle<P>) -> (r:
        AnnilInfo)
        ensures
            r.version@ == version@,
            r.protocol_version@ == protocol_version@,
            r.last_update == handle@.last_reload,
    {
        AnnilInfo { version, protocol_version, last_update: handle.last_reload() }
    }
}

} // verus!
