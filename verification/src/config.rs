//! Process configuration: the identities of the three chat surfaces and the
//! optional maintainer account. Read once at startup and never changed.

use vstd::prelude::*;

verus! {

/// The three chat surfaces the reconciler works across, plus the optional
/// maintainer account allowed to use the admin console.
///
/// `channel_id` is the broadcast channel whose member list is the source of
/// truth; `channel_chat_id` is the discussion group whose membership must stay
/// a subset of the channel's; `work_chat_id` is where reconciliation outcomes
/// are reported.
pub struct Config {
    pub channel_id: i64,
    pub channel_chat_id: i64,
    pub work_chat_id: i64,
    pub maintainer_id: Option<u64>,
}

impl Config {
    /// Builds a configuration from already-parsed identifiers. Reading and
    /// parsing the process environment happens outside this crate.
    pub fn new(
        channel_id: i64,
        channel_chat_id: i64,
        work_chat_id: i64,
        maintainer_id: Option<u64>,
    ) -> (cfg: Config)
        ensures
            cfg == (Config { channel_id, channel_chat_id, work_chat_id, maintainer_id }),
    {
        Config { channel_id, channel_chat_id, work_chat_id, maintainer_id }
    }
}

} // verus!
