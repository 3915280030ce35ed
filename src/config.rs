use vstd::prelude::*;

verus! {

/// Whether bundles are broadcast for inclusion or only simulated on the relay.
#[derive(Debug, Clone, Copy, PartialEq, Eq, Structural)]
pub enum OperationMode {
    Send,
    Simulate,
}

/// Why the runtime configuration could not be formed.
#[derive(Debug, Clone, Copy, PartialEq, Eq, Structural)]
pub enum ConfigError {
    /// No websocket endpoint of the chain node was given.
    MissingRpcEndpoint,
    /// No executor key was given.
    MissingPrivateKey,
    /// The executor key does not start with the `0x` marker.
    MalformedPrivateKey,
    /// No relay-authentication key was given.
    MissingFlashbotsKey,
    /// The relay-authentication key does not start with the `0x` marker.
    MalformedFlashbotsKey,
}

/// Runtime configuration details for the bot.
#[derive(Debug, Clone)]
pub struct Config {
    /// Executor key, hex, without its leading marker.
    pub executor_pk: String,
    /// Relay-authentication key, hex, without its leading marker.
    pub flashbots_pk: String,
    /// Websocket endpoint of the chain node.
    pub ws_rpc: String,
    pub operation_mode: OperationMode,
}

/// A key as given, with its two-character leading marker (`0x`) taken off.
pub open spec fn stripped(s: Seq<char>) -> Seq<char> {
    s.subrange(2, s.len() as int)
}

/// A key is well formed when it starts with the `0x` marker.
pub open spec fn strippable(s: Seq<char>) -> bool {
    s.len() >= 2 && s[0] == '0' && s[1] == 'x'
}

/// The mode selected by the presence of the simulate-only switch.
pub open spec fn mode_for(simulate_only: bool) -> OperationMode {
    if simulate_only {
        OperationMode::Simulate
    } else {
        OperationMode::Send
    }
}

/// The error `Config::new` reports for the given inputs, if any: the first
/// problem met, reading endpoint, executor key, then relay key.
pub open spec fn config_error(
    ws_rpc: Option<Seq<char>>,
    private_key: Option<Seq<char>>,
    flashbots_key: Option<Seq<char>>,
) -> Option<ConfigError> {
    if ws_rpc is None {
        Some(ConfigError::MissingRpcEndpoint)
    } else if private_key is None {
        Some(ConfigError::MissingPrivateKey)
    } else if !strippable(private_key->0) {
        Some(ConfigError::MalformedPrivateKey)
    } else if flashbots_key is None {
        Some(ConfigError::MissingFlashbotsKey)
    } else if !strippable(flashbots_key->0) {
        Some(ConfigError::MalformedFlashbotsKey)
    } else {
        None
    }
}

pub open spec fn opt_view(s: Option<String>) -> Option<Seq<char>> {
    match s {
        Some(t) => Some(t@),
        None => None,
    }
}

/// Takes the leading `0x` marker off a key; `None` when the key does not
/// start with it.
pub fn strip_marker(s: &str) -> (r: Option<String>)
    ensures
        r is None <==> !strippable(s@),
        r matches Some(t) ==> t@ == stripped(s@),
{
    let n = s.unicode_len();
    if n < 2 || s.get_char(0) != '0' || s.get_char(1) != 'x' {
        None
    } else {
        Some(s.substring_char(2, n).to_owned())
    }
}

impl Config {
    /// Forms the configuration from the values of the environment: the node
    /// endpoint, the executor key, the relay key (both keys with a leading
    /// marker), and whether the simulate-only switch is present.
    pub fn new(
        ws_rpc: Option<String>,
        private_key: Option<String>,
        flashbots_key: Option<String>,
        simulate_only: bool,
    ) -> (r: Result<Config, ConfigError>)
        ensures
            config_error(opt_view(ws_rpc), opt_view(private_key), opt_view(flashbots_key))
                matches Some(e) ==> r == Err::<Config, ConfigError>(e),
            config_error(opt_view(ws_rpc), opt_view(private_key), opt_view(flashbots_key))
                is None ==> r is Ok,
            r matches Ok(c) ==> {
                &&& c.ws_rpc@ == ws_rpc->0@
                &&& c.executor_pk@ == stripped(private_key->0@)
                &&& c.flashbots_pk@ == stripped(flashbots_key->0@)
                &&& c.operation_mode == mode_for(simulate_only)
            },
    {
        let ws_rpc = match ws_rpc {
            Some(s) => s,
            None => return Err(ConfigError::MissingRpcEndpoint),
        };
        let executor_pk = match private_key {
            Some(s) => match strip_marker(s.as_str()) {
                Some(k) => k,
                None => return Err(ConfigError::MalformedPrivateKey),
            },
            None => return Err(ConfigError::MissingPrivateKey),
        };
        let flashbots_pk = match flashbots_key {
            Some(s) => match strip_marker(s.as_str()) {
                Some(k) => k,
                None => return Err(ConfigError::MalformedFlashbotsKey),
            },
            None => return Err(ConfigError::MissingFlashbotsKey),
        };
        let operation_mode = if simulate_only {
            OperationMode::Simulate
        } else {
            OperationMode::Send
        };
        Ok(Config { executor_pk, flashbots_pk, ws_rpc, operation_mode })
    }
}

} // verus!
