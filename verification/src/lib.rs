//! A tool-execution server library speaking a JSON-RPC based control
//! protocol: pluggable capability providers declare named tools and
//! resources, a registry routes calls to them, an admission gate bounds
//! concurrent executions, an audit ledger records every invocation, and a
//! compositor IPC client drives a window compositor over Unix sockets.
//!
//! The modules here hold the verified core: wire-format codec, method
//! dispatch, registry, admission control, auditing, and the compositor
//! protocol state machine.  The I/O around them (sockets, processes,
//! files) lives outside the library and hands it plain values.
use vstd::prelude::*;

pub mod admission;
pub mod arch_install;
pub mod command;
pub mod disk;
pub mod package;
pub mod hyprland;
pub mod hyprland_plugin;
pub mod json;
pub mod jsonrpc;
pub mod registry;
pub mod resources;
pub mod screen_capture;
pub mod security;
pub mod server;
pub mod strutil;
pub mod tools;

verus! {

/// The domain errors of the server, one variant per failure class.
#[derive(Debug, Clone)]
pub enum MCPError {
    JsonRpc(String),
    SystemCommand(String),
    PermissionDenied(String),
    ResourceLocked(String),
    Configuration(String),
    Io(String),
    Other(String),
}

/// The human-readable text of an error, prefix plus cause.
pub open spec fn error_text(e: MCPError) -> Seq<char> {
    match e {
        MCPError::JsonRpc(s) => "JSON-RPC error: "@ + s@,
        MCPError::SystemCommand(s) => "System command failed: "@ + s@,
        MCPError::PermissionDenied(s) => "Permission denied: "@ + s@,
        MCPError::ResourceLocked(s) => "Resource locked: "@ + s@,
        MCPError::Configuration(s) => "Invalid configuration: "@ + s@,
        MCPError::Io(s) => "IO error: "@ + s@,
        MCPError::Other(s) => "Other error: "@ + s@,
    }
}

impl MCPError {
    /// The error rendered as one line of text.
    pub fn message(&self) -> (r: String)
        ensures
            r@ == error_text(*self),
    {
        match self {
            MCPError::JsonRpc(s) => String::from_str("JSON-RPC error: ").concat(s.as_str()),
            MCPError::SystemCommand(s) => String::from_str("System command failed: ").concat(
                s.as_str(),
            ),
            MCPError::PermissionDenied(s) => String::from_str("Permission denied: ").concat(
                s.as_str(),
            ),
            MCPError::ResourceLocked(s) => String::from_str("Resource locked: ").concat(s.as_str()),
            MCPError::Configuration(s) => String::from_str("Invalid configuration: ").concat(
                s.as_str(),
            ),
            MCPError::Io(s) => String::from_str("IO error: ").concat(s.as_str()),
            MCPError::Other(s) => String::from_str("Other error: ").concat(s.as_str()),
        }
    }
}

/// Server configuration, loaded from the environment by the embedding
/// program and handed in as plain values.
#[derive(Debug, Clone)]
pub struct Config {
    pub bind_address: String,
    pub max_concurrent_operations: usize,
    pub require_auth: bool,
    pub audit_log_path: String,
    pub plugins: Vec<String>,
}

impl Default for Config {
    /// The stock configuration: local bind address, ten concurrent
    /// operations, authentication on.
    fn default() -> (c: Config)
        ensures
            c.bind_address@ == "127.0.0.1:8080"@,
            c.max_concurrent_operations == 10,
            c.require_auth,
            c.audit_log_path@ == "/var/log/mcp-arch-linux/audit.log"@,
            c.plugins@.len() == 2,
            c.plugins@[0]@ == "arch_install"@,
            c.plugins@[1]@ == "hyprland"@,
    {
        let mut plugins: Vec<String> = Vec::new();
        plugins.push(String::from_str("arch_install"));
        plugins.push(String::from_str("hyprland"));
        Config {
            bind_address: String::from_str("127.0.0.1:8080"),
            max_concurrent_operations: 10,
            require_auth: true,
            audit_log_path: String::from_str("/var/log/mcp-arch-linux/audit.log"),
            plugins,
        }
    }
}

/// The assembled server: configuration, the admission gate, the
/// provider registry and the security context, built once at startup
/// and then driven by the dispatcher.
pub struct LinuxMCPServer {
    pub config: Config,
    pub gate: crate::admission::AdmissionGate,
    pub registry: crate::registry::PluginRegistry,
    pub security: crate::security::SecurityManager,
}

impl LinuxMCPServer {
    /// A fresh builder with no configuration and no providers.
    pub fn builder() -> (r: LinuxMCPServerBuilder)
        ensures
            r.config is None,
            r.plugins@.len() == 0,
    {
        LinuxMCPServerBuilder { config: None, plugins: Vec::new() }
    }

    /// Stops accepting new work.  In-flight executions are not
    /// cancelled; nothing of the server state changes.
    pub fn shutdown(&self) -> (r: Result<(), MCPError>)
        ensures
            r is Ok,
    {
        Ok(())
    }
}

/// One provider waiting to be registered.
pub struct PluginHolder {
    pub plugin: Box<dyn crate::registry::MCPPlugin>,
}

fn push_holder(v: &mut Vec<PluginHolder>, h: PluginHolder)
    ensures
        final(v)@ == old(v)@.push(h),
        final(v)@.len() == old(v)@.len() + 1,
        final(v)@.last() == h,
        final(v)@.subrange(0, old(v)@.len() as int) == old(v)@,
{
    v.push(h);
    proof {
        assert(v@.subrange(0, old(v)@.len() as int) =~= old(v)@);
    }
}

/// Collects the configuration and providers before the server starts.
pub struct LinuxMCPServerBuilder {
    pub config: Option<Config>,
    pub plugins: Vec<PluginHolder>,
}

impl Default for LinuxMCPServerBuilder {
    fn default() -> (r: LinuxMCPServerBuilder)
        ensures
            r.config is None,
            r.plugins@.len() == 0,
    {
        LinuxMCPServerBuilder { config: None, plugins: Vec::new() }
    }
}

impl LinuxMCPServerBuilder {
    /// Sets the configuration.
    pub fn with_config(self, config: Config) -> (r: LinuxMCPServerBuilder)
        ensures
            r.config == Some(config),
            r.plugins@ == self.plugins@,
    {
        LinuxMCPServerBuilder { config: Some(config), plugins: self.plugins }
    }

    /// Adds one provider, to be registered when the server is built:
    /// the plugin list is the old one with this provider appended, and
    /// the configuration is untouched.
    pub fn with_plugin(self, plugin: Box<dyn crate::registry::MCPPlugin>) -> (r:
        LinuxMCPServerBuilder)
        ensures
            r.config == self.config,
            r.plugins@ == self.plugins@.push((PluginHolder { plugin })),
            r.plugins@.len() == self.plugins@.len() + 1,
            r.plugins@.subrange(0, self.plugins@.len() as int) == self.plugins@,
    {
        let LinuxMCPServerBuilder { config, plugins } = self;
        let mut plugins = plugins;
        push_holder(&mut plugins, PluginHolder { plugin });
        LinuxMCPServerBuilder { config, plugins }
    }

    /// Builds the server: registers every provider in the order they
    /// were added — failing with a configuration error, and building
    /// nothing, if any registration collides — and sets up the
    /// admission gate, with the configured capacity, and the audit
    /// session from the configuration.  With no providers to register,
    /// building always succeeds.
    pub fn build(self) -> (r: Result<LinuxMCPServer, MCPError>)
        ensures
            r matches Ok(s) ==> s.registry.wf() && s.gate.in_flight == 0 && s.gate.wf()
                && s.security.audit_logger.ledger@.len() == 0,
            r matches Ok(s) ==> s.registry.entries@.len() == self.plugins@.len(),
            r matches Ok(s) ==> s.gate.capacity == (match self.config {
                Some(c) => c.max_concurrent_operations,
                None => 10,
            }),
            self.config matches Some(c) ==> (r matches Ok(s) ==> s.config == c),
            self.config is None ==> (r matches Ok(s) ==> s.config.bind_address@
                == "127.0.0.1:8080"@ && s.config.max_concurrent_operations == 10
                && s.config.require_auth && s.config.audit_log_path@
                == "/var/log/mcp-arch-linux/audit.log"@),
            r matches Ok(s) ==> s.security.audit_logger.log_path@ == (match self.config {
                Some(c) => c.audit_log_path@,
                None => "/var/log/mcp-arch-linux/audit.log"@,
            }),
            r matches Err(e) ==> e matches MCPError::Configuration(_),
            self.plugins@.len() == 0 ==> r is Ok,
    {
        let config: Config = match self.config {
            Some(c) => c,
            None => Default::default(),
        };
        let gate = crate::admission::AdmissionGate::new(config.max_concurrent_operations);
        let mut registry = crate::registry::PluginRegistry::new();
        let mut plugins = self.plugins;
        let ghost total = plugins@.len();
        while plugins.len() > 0
            invariant
                registry.wf(),
                total == self.plugins@.len(),
                registry.entries@.len() + plugins@.len() == total,
            decreases plugins.len(),
        {
            let p = plugins.remove(0);
            match registry.register(p.plugin) {
                Ok(_) => {},
                Err(e) => {
                    return Err(e);
                },
            }
        }
        let security = match crate::security::SecurityManager::new(
            config.require_auth,
            config.audit_log_path.as_str(),
        ) {
            Ok(s) => s,
            Err(e) => {
                return Err(e);
            },
        };
        Ok(LinuxMCPServer { config, gate, registry, security })
    }
}

} // verus!
