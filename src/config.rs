//! The settings of one relay: where messages come from, where they go, and how
//! often traffic is reported.
use vstd::prelude::*;
use vstd::string::*;
use crate::text::{decimal, decimal_string};

verus! {

/// The settings of one relay. The three destination fields are set together or not at all.
#[derive(Clone, Debug, Default)]
pub struct Config {
    pub log_level: String,
    pub source_host: String,
    pub source_port: u16,
    pub source_protocol: String,
    pub destination_host: Option<String>,
    pub destination_port: Option<u16>,
    pub destination_protocol: Option<String>,
    /// Minutes between two traffic reports.
    pub stat_interval: u64,
}

/// The text shown for an optional setting: its value, or `None` when it is unset.
pub open spec fn optional_text(v: Option<Seq<char>>) -> Seq<char> {
    match v {
        Some(t) => t,
        None => "None"@,
    }
}

/// The view of an optional text setting.
pub open spec fn view_option(v: Option<String>) -> Option<Seq<char>> {
    match v {
        Some(s) => Some(s@),
        None => None,
    }
}

/// The view of an optional port, as its decimal text.
pub open spec fn port_option(v: Option<u16>) -> Option<Seq<char>> {
    match v {
        Some(p) => Some(decimal(p as nat)),
        None => None,
    }
}

/// The text of a flag.
pub open spec fn bool_text(b: bool) -> Seq<char> {
    if b {
        "true"@
    } else {
        "false"@
    }
}

fn labelled(label: &str, value: &str) -> (r: String)
    ensures
        r@ == label@ + value@,
{
    String::from_str(label).concat(value)
}

fn optional_str(v: &Option<String>) -> (r: String)
    ensures
        r@ == optional_text(view_option(*v)),
{
    match v {
        Some(s) => s.clone(),
        None => String::from_str("None"),
    }
}

fn optional_port(v: Option<u16>) -> (r: String)
    ensures
        r@ == optional_text(port_option(v)),
{
    match v {
        Some(p) => decimal_string(p as u64),
        None => String::from_str("None"),
    }
}

impl Config {
    /// Whether a destination is configured: host, port and protocol are all set.
    pub open spec fn spec_is_destination_set(&self) -> bool {
        self.destination_host is Some && self.destination_port is Some
            && self.destination_protocol is Some
    }

    /// The lines that describe these settings, one per setting, in a fixed order,
    /// closed by whether an output server would be started.
    pub open spec fn spec_summary(&self) -> Seq<Seq<char>> {
        seq![
            "Log Level: "@ + self.log_level@,
            "Source Host: "@ + self.source_host@,
            "Source Port: "@ + decimal(self.source_port as nat),
            "Source Protocol: "@ + self.source_protocol@,
            "Destination Host: "@ + optional_text(view_option(self.destination_host)),
            "Destination Port: "@ + optional_text(port_option(self.destination_port)),
            "Destination Protocol: "@ + optional_text(view_option(self.destination_protocol)),
            "Stat Interval: "@ + decimal(self.stat_interval as nat),
            "Would start output server: "@ + bool_text(self.spec_is_destination_set()),
        ]
    }

    /// The lines that describe these settings, for the log.
    pub fn show_config(&self) -> (r: Vec<String>)
        ensures
            r@.map_values(|l: String| l@) == self.spec_summary(),
    {
        let mut r: Vec<String> = Vec::new();
        r.push(labelled("Log Level: ", self.log_level.as_str()));
        r.push(labelled("Source Host: ", self.source_host.as_str()));
        r.push(labelled("Source Port: ", decimal_string(self.source_port as u64).as_str()));
        r.push(labelled("Source Protocol: ", self.source_protocol.as_str()));
        r.push(labelled("Destination Host: ", optional_str(&self.destination_host).as_str()));
        r.push(labelled("Destination Port: ", optional_port(self.destination_port).as_str()));
        r.push(
            labelled("Destination Protocol: ", optional_str(&self.destination_protocol).as_str()),
        );
        r.push(labelled("Stat Interval: ", decimal_string(self.stat_interval).as_str()));
        let flag = if self.is_destination_set() {
            String::from_str("true")
        } else {
            String::from_str("false")
        };
        r.push(labelled("Would start output server: ", flag.as_str()));
        assert(r@.map_values(|l: String| l@) =~= self.spec_summary());
        r
    }

    /// The log level, as given.
    pub fn get_log_level(&self) -> (r: &str)
        ensures
            r@ == self.log_level@,
    {
        self.log_level.as_str()
    }

    /// The host messages are read from.
    pub fn get_source_host(&self) -> (r: &str)
        ensures
            r@ == self.source_host@,
    {
        self.source_host.as_str()
    }

    /// The port messages are read from.
    pub fn get_source_port(&self) -> (r: u16)
        ensures
            r == self.source_port,
    {
        self.source_port
    }

    /// The protocol name of the source, as given.
    pub fn get_source_protocol(&self) -> (r: &str)
        ensures
            r@ == self.source_protocol@,
    {
        self.source_protocol.as_str()
    }

    /// The host messages are relayed to, if any.
    pub fn get_destination_host(&self) -> (r: &Option<String>)
        ensures
            *r == self.destination_host,
    {
        &self.destination_host
    }

    /// The port messages are relayed to, if any.
    pub fn get_destination_port(&self) -> (r: Option<u16>)
        ensures
            r == self.destination_port,
    {
        self.destination_port
    }

    /// The protocol name of the destination, if any.
    pub fn get_destination_protocol(&self) -> (r: &Option<String>)
        ensures
            *r == self.destination_protocol,
    {
        &self.destination_protocol
    }

    /// Minutes between two traffic reports.
    pub fn get_stat_interval(&self) -> (r: u64)
        ensures
            r == self.stat_interval,
    {
        self.stat_interval
    }

    /// Whether a destination is configured: host, port and protocol are all set.
    pub fn is_destination_set(&self) -> (r: bool)
        ensures
            r == self.spec_is_destination_set(),
    {
        self.destination_host.is_some() && self.destination_port.is_some()
            && self.destination_protocol.is_some()
    }
}

} // verus!
