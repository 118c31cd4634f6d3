use vstd::prelude::*;

verus! {

/// Default circuit-relay host a node dials to learn its external address.
pub const RELAY_ADDRESS: &'static str = "p2pmidirelay.fly.dev";

/// Default port of the circuit relay.
pub const RELAY_PORT: u16 = 8040;

/// Default port the node itself listens on.
pub const DEFAULT_PORT: u16 = 8040;

/// Where the configuration file lives unless the user points elsewhere.
pub const DEFAULT_CONFIG_PATH: &'static str = "~/.config/p2pmidi/config.yml";

/// Largest valid TCP/UDP port number.
pub const MAX_PORT_NUMBER: u16 = 65535;

/// Whether addresses are composed over IPv6 by default.
pub const USE_IPV6: bool = false;

} // verus!
