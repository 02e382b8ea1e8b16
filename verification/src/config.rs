//! What the engine is configured with at startup.

use vstd::prelude::*;

verus! {

/// The settings of the dashboard. A setting that the configuration file
/// leaves out takes the default of the function below that is named after
/// it.
#[derive(Debug)]
pub struct Config {
    /// The directory that fonts and images are loaded from.
    pub resources: String,
    /// Host, and port if any, of the relay that pushes the sensor reports.
    pub relay_host: String,
    /// The grace period of the presence resolver, in seconds.
    pub presence_threshold_secs: u32,
}

impl Clone for Config {
    fn clone(&self) -> (copy: Config)
        ensures
            copy.resources@ == self.resources@,
            copy.relay_host@ == self.relay_host@,
            copy.presence_threshold_secs == self.presence_threshold_secs,
    {
        Config {
            resources: self.resources.clone(),
            relay_host: self.relay_host.clone(),
            presence_threshold_secs: self.presence_threshold_secs,
        }
    }
}

/// The default of `Config::resources`.
pub fn default_resources() -> (resources: String)
    ensures
        resources@ == "./resources"@,
{
    "./resources".to_owned()
}

/// The default of `Config::relay_host`.
pub fn default_relay_host() -> (relay_host: String)
    ensures
        relay_host@ == "127.0.0.1"@,
{
    "127.0.0.1".to_owned()
}

/// The default of `Config::presence_threshold_secs`: ten minutes.
pub fn default_presence_threshold_secs() -> (secs: u32)
    ensures
        secs == 600,
{
    600
}

} // verus!
