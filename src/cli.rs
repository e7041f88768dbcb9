//! The values a command line hands to the library.
use vstd::prelude::*;

use crate::protocol::ProtocolConfig;

verus! {

/// Optional selection criteria; an absent field matches any value, and the
/// present ones must all match.
#[derive(Clone, Copy, Debug, PartialEq, Eq, Structural)]
pub struct FilterArgs {
    pub vendor_id: Option<u16>,
    pub product_id: Option<u16>,
    pub usage_page: Option<u16>,
    pub usage: Option<u16>,
}

/// Parameters of the feature-report dialect.
#[derive(Clone, Copy, Debug, PartialEq, Eq, Structural)]
pub struct ProtocolArgs {
    /// First byte of every report.
    pub report_id: u8,
    /// Report length; shorter values are raised to the dialect's floor.
    pub report_len: usize,
    /// Command byte of a status query.
    pub command_status: u8,
    /// Command byte of a set request.
    pub command_set: u8,
}

/// Arguments of the listing command.
#[derive(Clone, Copy, Debug)]
pub struct ListArgs {
    pub filter: FilterArgs,
}

/// Arguments of the status command.
#[derive(Clone, Debug)]
pub struct StatusArgs {
    /// Serial number or device-path fragment; absent shows every match.
    pub id: Option<String>,
    pub filter: FilterArgs,
    pub protocol: ProtocolConfig,
}

/// Arguments of the on and off commands.
#[derive(Clone, Debug)]
pub struct SetArgs {
    /// Serial number or device-path fragment; the selection must leave one device.
    pub id: Option<String>,
    pub filter: FilterArgs,
    pub protocol: ProtocolConfig,
    /// Value sent to light the LED.
    pub on_value: u8,
    /// Value sent to turn the LED off.
    pub off_value: u8,
}

/// One of the commands.
#[derive(Clone, Debug)]
pub enum Commands {
    List(ListArgs),
    Status(StatusArgs),
    On(SetArgs),
    Off(SetArgs),
}

/// A parsed command line.
#[derive(Clone, Debug)]
pub struct Cli {
    pub command: Commands,
}

} // verus!
