use vstd::prelude::*;

use crate::config::Config;

verus! {

/// The process-wide state that handlers reach through the shared lock.
#[derive(Debug, Clone)]
pub struct Server {
    pub config: Config,
}

impl Server {
    pub fn new(config: Config) -> (r: Server)
        ensures
            r.config == config,
    {
        Server { config }
    }
}

} // verus!
