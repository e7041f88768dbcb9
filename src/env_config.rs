//! Default selection values taken from the environment, and their merge with
//! explicit ones.
use vstd::prelude::*;
use vstd::string::StringSliceAdditionalSpecFns;

use crate::cli::FilterArgs;
use crate::error::{FilterField, LocatorError};
use crate::util::{failure_text, parse_hex_or_dec, parse_hex_or_dec_u16, ParseFailure};

verus! {

/// Defaults for the four selection fields.
#[derive(Clone, Copy, Debug, PartialEq, Eq, Structural)]
pub struct EnvDefaults {
    pub vendor_id: Option<u16>,
    pub product_id: Option<u16>,
    pub usage_page: Option<u16>,
    pub usage: Option<u16>,
}

/// An explicit value if there is one, else the default.
pub open spec fn prefer(explicit: Option<u16>, default: Option<u16>) -> Option<u16> {
    match explicit {
        Some(v) => Some(v),
        None => default,
    }
}

/// Fills each absent field of `cli` from `env`; a present field of `cli` is kept.
pub fn merge_filter(cli: &FilterArgs, env: &EnvDefaults) -> (r: FilterArgs)
    ensures
        r.vendor_id == prefer(cli.vendor_id, env.vendor_id),
        r.product_id == prefer(cli.product_id, env.product_id),
        r.usage_page == prefer(cli.usage_page, env.usage_page),
        r.usage == prefer(cli.usage, env.usage),
{
    FilterArgs {
        vendor_id: pick(cli.vendor_id, env.vendor_id),
        product_id: pick(cli.product_id, env.product_id),
        usage_page: pick(cli.usage_page, env.usage_page),
        usage: pick(cli.usage, env.usage),
    }
}

fn pick(explicit: Option<u16>, default: Option<u16>) -> (r: Option<u16>)
    ensures
        r == prefer(explicit, default),
{
    match explicit {
        Some(v) => Some(v),
        None => default,
    }
}

/// What an optional environment text gives: nothing when unset, else its number.
pub open spec fn env_value(text: Option<&str>) -> Result<Option<u16>, ParseFailure> {
    match text {
        None => Ok(None),
        Some(t) => match parse_hex_or_dec(t.spec_bytes(), 0xFFFF) {
            Ok(v) => Ok(Some(v as u16)),
            Err(e) => Err(e),
        },
    }
}

fn read_env_u16(text: Option<&str>) -> (r: Result<Option<u16>, String>)
    ensures
        match env_value(text) {
            Ok(v) => r == Ok::<Option<u16>, String>(v),
            Err(e) => r is Err && r->Err_0@ == failure_text(e),
        },
{
    match text {
        None => Ok(None),
        Some(t) => match parse_hex_or_dec_u16(t) {
            Ok(v) => Ok(Some(v)),
            Err(m) => Err(m),
        },
    }
}

/// Whether `r` is the failure of `field` with the text of `e`.
pub open spec fn is_parse_error(r: Result<EnvDefaults, LocatorError>, field: FilterField, e: ParseFailure) -> bool {
    match r {
        Err(LocatorError::ConfigParseError { field: f, message }) => f == field && message@ == failure_text(e),
        _ => false,
    }
}

/// Reads the defaults from the texts of the four variables (vendor id, product
/// id, usage page, usage; `None` where unset). The first text, in that order,
/// that is not a number fails with its field named.
pub fn load_env_defaults(
    vendor_id: Option<&str>,
    product_id: Option<&str>,
    usage_page: Option<&str>,
    usage: Option<&str>,
) -> (r: Result<EnvDefaults, LocatorError>)
    ensures
        match (env_value(vendor_id), env_value(product_id), env_value(usage_page), env_value(usage)) {
            (Ok(v), Ok(p), Ok(up), Ok(u)) => r == Ok::<EnvDefaults, LocatorError>(
                EnvDefaults { vendor_id: v, product_id: p, usage_page: up, usage: u },
            ),
            (Err(e), _, _, _) => is_parse_error(r, FilterField::VendorId, e),
            (Ok(_), Err(e), _, _) => is_parse_error(r, FilterField::ProductId, e),
            (Ok(_), Ok(_), Err(e), _) => is_parse_error(r, FilterField::UsagePage, e),
            (Ok(_), Ok(_), Ok(_), Err(e)) => is_parse_error(r, FilterField::Usage, e),
        },
{
    let v = match read_env_u16(vendor_id) {
        Ok(v) => v,
        Err(message) => return Err(LocatorError::ConfigParseError { field: FilterField::VendorId, message }),
    };
    let p = match read_env_u16(product_id) {
        Ok(v) => v,
        Err(message) => return Err(LocatorError::ConfigParseError { field: FilterField::ProductId, message }),
    };
    let up = match read_env_u16(usage_page) {
        Ok(v) => v,
        Err(message) => return Err(LocatorError::ConfigParseError { field: FilterField::UsagePage, message }),
    };
    let u = match read_env_u16(usage) {
        Ok(v) => v,
        Err(message) => return Err(LocatorError::ConfigParseError { field: FilterField::Usage, message }),
    };
    Ok(EnvDefaults { vendor_id: v, product_id: p, usage_page: up, usage: u })
}

} // verus!
