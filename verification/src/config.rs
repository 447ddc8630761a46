//! Options of an agent.

use crate::duration::Duration;
use vstd::prelude::*;
use vstd::string::*;

verus! {

/// Default WebSocket endpoint.
pub const DEFAULT_ENDPOINT: &'static str = "wss://as.agent-socket.ai";

const DEFAULT_MIN_BACKOFF_MILLIS: u64 = 500;

const DEFAULT_MAX_BACKOFF_SECS: u64 = 30;

/// Options controlling supervisor behaviour.
#[derive(Debug)]
pub struct Config {
    /// WebSocket endpoint. Default [`DEFAULT_ENDPOINT`].
    pub endpoint: String,
    /// Initial reconnect delay. Default 500ms.
    pub min_backoff: Duration,
    /// Max reconnect delay. Default 30s.
    pub max_backoff: Duration,
}

/// A [`Config`] with its text as characters and its times in nanoseconds.
pub struct ConfigView {
    pub endpoint: Seq<char>,
    pub min_backoff: nat,
    pub max_backoff: nat,
}

impl View for Config {
    type V = ConfigView;

    open spec fn view(&self) -> ConfigView {
        ConfigView {
            endpoint: self.endpoint@,
            min_backoff: self.min_backoff@,
            max_backoff: self.max_backoff@,
        }
    }
}

impl Clone for Config {
    fn clone(&self) -> (r: Self)
        ensures
            r == *self,
    {
        Config {
            endpoint: self.endpoint.clone(),
            min_backoff: self.min_backoff,
            max_backoff: self.max_backoff,
        }
    }
}

impl Default for Config {
    fn default() -> (r: Self)
        ensures
            r@ == (ConfigView {
                endpoint: "wss://as.agent-socket.ai"@,
                min_backoff: 500_000_000,
                max_backoff: 30_000_000_000,
            }),
    {
        Config {
            endpoint: DEFAULT_ENDPOINT.to_owned(),
            min_backoff: Duration::from_millis(DEFAULT_MIN_BACKOFF_MILLIS),
            max_backoff: Duration::from_secs(DEFAULT_MAX_BACKOFF_SECS),
        }
    }
}

} // verus!
