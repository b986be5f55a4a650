//! The settings that the library's parts are made with.
use vstd::prelude::*;

use crate::text::decimal::decimal;
use crate::text::decimal::push_decimal;
use crate::text::push_str;
use crate::text::string_of;

verus! {

/// Where the two serial sources are wired.
#[derive(Debug, Clone)]
pub struct Serial {
    /// The path of the power module's port.
    pub rpict: String,
    /// The path of the meter's port.
    pub linky: String,
}

/// Where the time-series database listens.
#[derive(Debug, Clone)]
pub struct InfluxDB {
    pub host: String,
    pub port: usize,
    /// The database that the readings are written to.
    pub database: String,
    /// What the names of the measurements begin with, if anything.
    pub prefix: Option<String>,
}

impl InfluxDB {
    /// The address of the database: `http://`, the host, a colon, the port.
    pub fn base_url(&self) -> (url: String)
        ensures
            url@ == "http://"@ + self.host@ + ":"@ + decimal(self.port as nat),
    {
        let mut out: Vec<char> = Vec::new();
        push_str(&mut out, "http://");
        push_str(&mut out, self.host.as_str());
        push_str(&mut out, ":");
        push_decimal(&mut out, self.port as u64);
        assert(out@ == "http://"@ + self.host@ + ":"@ + decimal(self.port as nat));
        string_of(&out)
    }
}

/// Where the message broker of the home automation listens, and how to log
/// in to it.
#[derive(Debug, Clone)]
pub struct HassMqtt {
    pub host: String,
    pub port: u16,
    pub username: Option<String>,
    pub password: Option<String>,
}

} // verus!
