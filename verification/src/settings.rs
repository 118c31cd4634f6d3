use vstd::prelude::*;

use crate::constants;

verus! {

/// Colour scheme requested for the configuration front end.
#[derive(Clone, Copy, Debug, PartialEq, Eq, Structural)]
pub enum ThemeType {
    Light,
    Dark,
}

/// Per-node configuration: how the node presents itself, which peers it
/// connects to, and which circuit relay it learns its address through.
#[derive(Clone, Debug)]
pub struct Settings {
    /// Display name among the nodes.
    pub name: Option<String>,
    /// Addresses of nodes to connect to.
    pub ip_addresses: Vec<String>,
    /// Port this node listens on; all nodes must use the same port.
    pub port: u16,
    /// MIDI input device to stream from.
    pub midi_device: Option<String>,
    /// Host of the circuit relay.
    pub relay_address: String,
    /// Port of the circuit relay.
    pub relay_port: u16,
    /// Colour scheme.
    pub theme: Option<ThemeType>,
}

impl Default for Settings {
    /// The configuration a node runs with when nothing overrides it.
    fn default() -> (s: Settings)
        ensures
            s.name is None,
            s.ip_addresses@ =~= Seq::<String>::empty(),
            s.port == constants::DEFAULT_PORT,
            s.midi_device is None,
            s.relay_address@ == constants::RELAY_ADDRESS@,
            s.relay_port == constants::RELAY_PORT,
            s.theme is None,
    {
        Settings {
            name: None,
            ip_addresses: Vec::new(),
            port: constants::DEFAULT_PORT,
            midi_device: None,
            relay_address: constants::RELAY_ADDRESS.to_owned(),
            relay_port: constants::RELAY_PORT,
            theme: None,
        }
    }
}

/// A partial configuration: what one source (the command line, or one
/// configuration file) pins down, with every other field left open.
#[derive(Clone, Debug)]
pub struct SettingsPatch {
    pub name: Option<String>,
    pub ip_addresses: Option<Vec<String>>,
    pub port: Option<u16>,
    pub midi_device: Option<String>,
    pub relay_address: Option<String>,
    pub relay_port: Option<u16>,
    pub theme: Option<ThemeType>,
}

impl SettingsPatch {
    /// A patch that pins nothing down.
    pub fn empty() -> (p: SettingsPatch)
        ensures
            p.name is None,
            p.ip_addresses is None,
            p.port is None,
            p.midi_device is None,
            p.relay_address is None,
            p.relay_port is None,
            p.theme is None,
    {
        SettingsPatch {
            name: None,
            ip_addresses: None,
            port: None,
            midi_device: None,
            relay_address: None,
            relay_port: None,
            theme: None,
        }
    }
}

impl Settings {
    /// Lay a patch over a base configuration: every field the patch pins
    /// down wins, every other field keeps the base's value.
    pub fn merged_with(self, patch: SettingsPatch) -> (s: Settings)
        ensures
            s.name == if patch.name is Some { patch.name } else { self.name },
            s.ip_addresses == if patch.ip_addresses is Some { patch.ip_addresses->0 } else { self.ip_addresses },
            s.port == if patch.port is Some { patch.port->0 } else { self.port },
            s.midi_device == if patch.midi_device is Some { patch.midi_device } else { self.midi_device },
            s.relay_address == if patch.relay_address is Some { patch.relay_address->0 } else { self.relay_address },
            s.relay_port == if patch.relay_port is Some { patch.relay_port->0 } else { self.relay_port },
            s.theme == if patch.theme is Some { patch.theme } else { self.theme },
    {
        Settings {
            name: match patch.name {
                Some(v) => Some(v),
                None => self.name,
            },
            ip_addresses: match patch.ip_addresses {
                Some(v) => v,
                None => self.ip_addresses,
            },
            port: match patch.port {
                Some(v) => v,
                None => self.port,
            },
            midi_device: match patch.midi_device {
                Some(v) => Some(v),
                None => self.midi_device,
            },
            relay_address: match patch.relay_address {
                Some(v) => v,
                None => self.relay_address,
            },
            relay_port: match patch.relay_port {
                Some(v) => v,
                None => self.relay_port,
            },
            theme: match patch.theme {
                Some(v) => Some(v),
                None => self.theme,
            },
        }
    }
}

} // verus!
