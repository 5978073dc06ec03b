use vstd::prelude::*;

verus! {

/// Port served when none is configured.
pub const DEFAULT_PORT: u16 = 8080;

/// Client origin assumed when none is configured.
pub const DEFAULT_CLIENT_URL: &'static str = "http://localhost:3000";

/// Request body limit, in mebibytes, when none is configured.
pub const DEFAULT_PAYLOAD_LIMIT: usize = 10;

/// Settings of the service.
#[derive(Debug)]
pub struct Config {
    pub port: u16,
    pub client_url: String,
    pub verbose: bool,
    /// Largest request body, in mebibytes.
    pub payload_limit: usize,
}

impl Config {
    /// The settings used where nothing is configured.
    pub fn defaults() -> (r: Config)
        ensures
            r.port == DEFAULT_PORT,
            r.client_url@ == DEFAULT_CLIENT_URL@,
            !r.verbose,
            r.payload_limit == DEFAULT_PAYLOAD_LIMIT,
    {
        Config {
            port: DEFAULT_PORT,
            client_url: String::from_str(DEFAULT_CLIENT_URL),
            verbose: false,
            payload_limit: DEFAULT_PAYLOAD_LIMIT,
        }
    }

    /// The request body limit in bytes; `None` where it does not fit a `usize`.
    pub fn payload_limit_bytes(&self) -> (r: Option<usize>)
        ensures
            r == (if self.payload_limit * 1048576 <= usize::MAX {
                Some((self.payload_limit * 1048576) as usize)
            } else {
                None::<usize>
            }),
    {
        self.payload_limit.checked_mul(1048576)
    }
}

} // verus!
