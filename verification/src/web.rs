//! The settings of the service that offers calendars over the network.

use vstd::prelude::*;

verus! {

/// Where the service listens and where it finds its calendars.
#[derive(Debug)]
pub struct WebConfig {
    pub host: String,
    pub port: u16,
    pub calendar_data_dir: String,
}

impl Default for WebConfig {
    fn default() -> (out: Self)
        ensures
            out.host@ == "127.0.0.1"@,
            out.port == 3000,
            out.calendar_data_dir@ == "calendar_data"@,
    {
        WebConfig {
            host: String::from_str("127.0.0.1"),
            port: 3000,
            calendar_data_dir: String::from_str("calendar_data"),
        }
    }
}

impl Clone for WebConfig {
    fn clone(&self) -> (out: Self)
        ensures
            out == *self,
    {
        WebConfig {
            host: self.host.clone(),
            port: self.port,
            calendar_data_dir: self.calendar_data_dir.clone(),
        }
    }
}

} // verus!
