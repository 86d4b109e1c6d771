//! What a plugin is: the trait that plugins implement, and the health they
//! report.

use vstd::prelude::*;
use crate::errors::LoquatError;
use crate::plugins::types::PluginType;

verus! {

/// A plugin's health.
#[derive(Debug, Clone, PartialEq, Eq)]
pub enum PluginHealth {
    Healthy,
    Degraded { reason: String },
    Unhealthy { reason: String },
}

impl PluginHealth {
    /// Whether the plugin is fully healthy.
    pub fn is_healthy(&self) -> (r: bool)
        ensures
            r == (*self is Healthy),
    {
        match self {
            PluginHealth::Healthy => true,
            _ => false,
        }
    }
}

/// A plugin, as plugin authors implement it.
pub trait Plugin {
    /// The plugin's name.
    fn name(&self) -> &str;

    /// The plugin's version.
    fn version(&self) -> &str;

    /// The plugin's kind.
    fn plugin_type(&self) -> PluginType;

    /// What the plugin does; none unless the plugin says.
    fn description(&self) -> (r: Option<&str>)
        default_ensures
            r is None,
    {
        None
    }

    /// Who wrote the plugin; none unless the plugin says.
    fn author(&self) -> (r: Option<&str>)
        default_ensures
            r is None,
    {
        None
    }

    /// The plugins it needs; none unless the plugin says.
    fn dependencies(&self) -> (r: Vec<String>)
        default_ensures
            r@.len() == 0,
    {
        Vec::new()
    }

    /// Set the plugin up; nothing to do unless the plugin says.
    fn init(&mut self) -> (r: Result<(), LoquatError>)
        default_ensures
            r is Ok,
    {
        Ok(())
    }

    /// Load the plugin, after `init`; nothing to do unless the plugin says.
    fn load(&mut self) -> (r: Result<(), LoquatError>)
        default_ensures
            r is Ok,
    {
        Ok(())
    }

    /// Unload the plugin; nothing to do unless the plugin says.
    fn unload(&mut self) -> (r: Result<(), LoquatError>)
        default_ensures
            r is Ok,
    {
        Ok(())
    }

    /// Unload and load again, stopping at a failed unload.
    fn reload(&mut self) -> (r: Result<(), LoquatError>) {
        match self.unload() {
            Ok(()) => {},
            Err(e) => {
                return Err(e);
            },
        }
        self.load()
    }

    /// Whether the plugin is ready to handle events; ready unless the plugin
    /// says otherwise.
    fn is_ready(&self) -> (r: bool)
        default_ensures
            r,
    {
        true
    }

    /// Take a new configuration, given as JSON text; ignored unless the
    /// plugin says otherwise.
    fn update_config(&mut self, config_json: &str) -> (r: Result<(), LoquatError>)
        default_ensures
            r is Ok,
    {
        Ok(())
    }

    /// The plugin's health; healthy unless the plugin says otherwise.
    fn health_status(&self) -> (r: PluginHealth)
        default_ensures
            r is Healthy,
    {
        PluginHealth::Healthy
    }
}

} // verus!
