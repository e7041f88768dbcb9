//! Failures of resolution, configuration and device exchange.
use vstd::prelude::*;

verus! {

/// One of the four selection fields.
#[derive(Clone, Copy, Debug, PartialEq, Eq, Structural)]
pub enum FilterField {
    VendorId,
    ProductId,
    UsagePage,
    Usage,
}

/// What went wrong while selecting a locator or talking to it.
#[derive(Clone, Debug, PartialEq, Eq)]
pub enum LocatorError {
    /// No candidate is left; carries the identifier that was asked for, if any.
    NotFound(Option<String>),
    /// More than one candidate is left; narrow by filter or identifier.
    Ambiguous,
    /// The device is listed but could not be opened.
    OpenFailure(String),
    /// A send or receive on the device failed.
    TransportFailure(String),
    /// The response does not begin with the expected header byte; carries the response.
    ProtocolMismatch(Vec<u8>),
    /// The response is too short to hold the status byte; carries the response.
    InsufficientLength(Vec<u8>),
    /// A numeric selection value could not be read.
    ConfigParseError { field: FilterField, message: String },
}

} // verus!
