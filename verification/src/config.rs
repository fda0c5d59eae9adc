//! Settings of the agent and of the relay server.

use vstd::prelude::*;

verus! {

/// `hostname::get`: the name of this machine, where the system gives one
/// that is valid Unicode. Nothing is claimed of it.
#[verifier::external_body]
fn host_name() -> (name: Option<String>) {
    match hostname::get() {
        Ok(name) => name.into_string().ok(),
        Err(_) => None,
    }
}

/// The agent's settings.
#[derive(Debug, Clone, PartialEq, Eq)]
pub struct AgentConfig {
    pub device_id: String,
    pub server_url: String,
    pub max_fps: u8,
    pub encoder_quality: u8,
}

impl AgentConfig {
    /// True if the settings are the defaults for a machine of this name:
    /// the device is called after the machine, or `unknown-device` where the
    /// machine has no name.
    pub open spec fn is_default_for(&self, host: Option<String>) -> bool {
        &&& self.device_id@ == match host {
            Some(name) => name@,
            None => "unknown-device"@,
        }
        &&& self.server_url@ == "127.0.0.1:4433"@
        &&& self.max_fps == 30
        &&& self.encoder_quality == 80
    }

    /// The default settings for a machine of this name.
    pub fn for_host(host: Option<String>) -> (config: AgentConfig)
        ensures
            config.is_default_for(host),
    {
        let device_id = match host {
            Some(name) => name,
            None => "unknown-device".to_owned(),
        };
        AgentConfig {
            device_id,
            server_url: "127.0.0.1:4433".to_owned(),
            max_fps: 30,
            encoder_quality: 80,
        }
    }

    /// The settings to work with: those that were read, or the defaults
    /// where none could be read.
    pub fn load(read: Option<AgentConfig>) -> (config: AgentConfig)
        ensures
            match read {
                Some(settings) => config == settings,
                None => exists|host: Option<String>| config.is_default_for(host),
            },
    {
        match read {
            Some(settings) => settings,
            None => AgentConfig::default(),
        }
    }
}

impl Default for AgentConfig {
    /// The default settings for this machine.
    fn default() -> (config: AgentConfig)
        ensures
            exists|host: Option<String>| config.is_default_for(host),
    {
        let host = host_name();
        let config = AgentConfig::for_host(host);
        assert(config.is_default_for(host));
        config
    }
}

/// The relay server's settings.
#[derive(Debug, Clone, PartialEq, Eq)]
pub struct ServerConfig {
    pub bind_address: String,
    pub max_sessions: usize,
    pub relay_enabled: bool,
}

impl ServerConfig {
    /// True if the settings are the defaults.
    pub open spec fn is_default(&self) -> bool {
        &&& self.bind_address@ == "0.0.0.0:4433"@
        &&& self.max_sessions == 100
        &&& self.relay_enabled
    }

    /// The settings to work with: those that were read, or the defaults
    /// where none could be read.
    pub fn load(read: Option<ServerConfig>) -> (config: ServerConfig)
        ensures
            match read {
                Some(settings) => config == settings,
                None => config.is_default(),
            },
    {
        match read {
            Some(settings) => settings,
            None => ServerConfig::default(),
        }
    }
}

impl Default for ServerConfig {
    fn default() -> (config: ServerConfig)
        ensures
            config.is_default(),
    {
        ServerConfig {
            bind_address: "0.0.0.0:4433".to_owned(),
            max_sessions: 100,
            relay_enabled: true,
        }
    }
}

} // verus!
