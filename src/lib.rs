//! Discovery, selection and report encoding for USB HID locator LEDs.
pub mod cli;
pub mod env_config;
pub mod error;
pub mod hid;
pub mod protocol;
pub mod util;

pub use cli::{Cli, Commands, FilterArgs, ListArgs, ProtocolArgs, SetArgs, StatusArgs};
pub use env_config::{load_env_defaults, merge_filter, EnvDefaults};
pub use error::{FilterField, LocatorError};
pub use hid::{
    matches_filter, pick_single_device, query_locator, query_status, query_status_output,
    retain_matching_id, select_devices, set_light, set_light_output, set_locator,
    snapshot_devices, DeviceDescriptor, HidDeviceIo,
};
pub use protocol::{
    decode_feature_response, decode_feature_status, decode_output_response, decode_output_status,
    encode_feature_set_request, encode_set_request, encode_status_request, new_response_buffer,
    encode_feature_status_request, encode_output_set_request, encode_output_status_request,
    LocatorStatus, OutputReportArgs, ProtocolConfig,
};
pub use util::{format_bytes, format_usage, parse_hex_or_dec_u16, parse_hex_or_dec_u8};
