use vstd::prelude::*;

verus! {

/// Process configuration, constructed once at startup and passed by
/// reference into the dispatcher and the sweep scheduler; there is no
/// global mutable state.
///
/// `NO_FILES_TIMEOUT` evicts sessions that never received a file,
/// `REPEAT_TIMEOUT` spaces sweep-driven re-prompts, and `REPEAT_COUNT`
/// bounds them before eviction.
#[allow(non_snake_case)]
#[derive(Debug, Clone)]
pub struct Config {
    pub API_URL: String,
    pub ID_INSTANCE: String,
    pub API_TOKEN_INSTANCE: String,
    pub ADMIN_CHAT_ID: String,
    pub WORKER_URL: String,
    pub SHOP_ADDRESS: String,
    pub SHOP_PHONE: String,
    pub SECRET_TOKEN: String,
    pub NO_FILES_TIMEOUT: u64,
    pub REPEAT_COUNT: i32,
    pub REPEAT_TIMEOUT: u64,
    pub HOOK_PORT: u16,
}

} // verus!
