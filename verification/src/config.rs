//! Process configuration, constructed once at startup and passed by
//! reference into each component that needs it. Reading the configuration
//! file itself is an external concern; the library only holds the loaded
//! values.

use vstd::prelude::*;

verus! {

/// The loaded process configuration: the application's name, a debug flag,
/// and the two listener ports (RPC and metrics).
pub struct AppConfig {
    pub app_name: String,
    pub app_debug: bool,
    pub grpc_port: u16,
    pub monitor_port: u16,
}

impl AppConfig {
    /// Builds a configuration object from its loaded values.
    pub fn new(app_name: String, app_debug: bool, grpc_port: u16, monitor_port: u16) -> (c:
        AppConfig)
        ensures
            c.app_name@ == app_name@,
            c.app_debug == app_debug,
            c.grpc_port == grpc_port,
            c.monitor_port == monitor_port,
    {
        AppConfig { app_name, app_debug, grpc_port, monitor_port }
    }
}

} // verus!
