//! Report encoding and decoding for the two wire dialects.
use vstd::prelude::*;

use crate::cli::ProtocolArgs;
use crate::error::LocatorError;

verus! {

/// Parameters of the output/input-report dialect.
#[derive(Clone, Copy, Debug, PartialEq, Eq, Structural)]
pub struct OutputReportArgs {
    /// Report length; shorter values are raised to the dialect's floor.
    pub report_len: usize,
    /// How long to wait for the input report, in milliseconds.
    pub read_timeout_ms: i32,
}

/// The dialect in use, with its parameters.
#[derive(Clone, Copy, Debug, PartialEq, Eq, Structural)]
pub enum ProtocolConfig {
    /// Feature reports; the status byte sits at `status_index` of the response.
    Feature { args: ProtocolArgs, status_index: usize },
    /// Output reports out, input reports back.
    Output(OutputReportArgs),
}

/// Shortest report of the feature-report dialect: id, command, value.
pub const FEATURE_MIN_LEN: usize = 3;

/// Shortest report of the output-report dialect: command, mask.
pub const OUTPUT_MIN_LEN: usize = 2;

/// Command byte of an output-report status query.
pub const COMMAND_STATUS: u8 = 0x01;

/// Command byte of an output-report set request.
pub const COMMAND_SET: u8 = 0x02;

/// First byte of every well-formed input-report status response.
pub const RESPONSE_HEADER: u8 = 0xFF;

/// Decoded state of a locator LED.
#[derive(Clone, Debug, PartialEq, Eq)]
pub struct LocatorStatus {
    /// Whether the LED is lit.
    pub is_on: bool,
    /// The status byte as received.
    pub mask: u8,
    /// The whole response as received.
    pub raw: Vec<u8>,
}

/// The length a report is sent with: the requested one, raised to `floor`.
pub open spec fn report_size(report_len: usize, floor: usize) -> nat {
    if report_len < floor {
        floor as nat
    } else {
        report_len as nat
    }
}

/// A zero-filled report of `len` bytes whose first bytes are `head`.
pub open spec fn report(len: nat, head: Seq<u8>) -> Seq<u8> {
    Seq::new(len, |i: int| if i < head.len() { head[i] } else { 0u8 })
}

/// The value a set request carries.
pub open spec fn set_value(turn_on: bool, on_value: u8, off_value: u8) -> u8 {
    if turn_on {
        on_value
    } else {
        off_value
    }
}

/// Feature-report status query: report id, status command, zeros.
pub open spec fn feature_status_request(a: ProtocolArgs) -> Seq<u8> {
    report(report_size(a.report_len, FEATURE_MIN_LEN), seq![a.report_id, a.command_status])
}

/// Feature-report set request: report id, set command, value, zeros.
pub open spec fn feature_set_request(a: ProtocolArgs, turn_on: bool, on_value: u8, off_value: u8) -> Seq<u8> {
    report(
        report_size(a.report_len, FEATURE_MIN_LEN),
        seq![a.report_id, a.command_set, set_value(turn_on, on_value, off_value)],
    )
}

/// Output-report status query: the status command, zeros.
pub open spec fn output_status_request(a: OutputReportArgs) -> Seq<u8> {
    report(report_size(a.report_len, OUTPUT_MIN_LEN), seq![COMMAND_STATUS])
}

/// Output-report set request: the set command, the mask, zeros.
pub open spec fn output_set_request(a: OutputReportArgs, turn_on: bool, on_value: u8, off_value: u8) -> Seq<u8> {
    report(
        report_size(a.report_len, OUTPUT_MIN_LEN),
        seq![COMMAND_SET, set_value(turn_on, on_value, off_value)],
    )
}

/// The status byte of a feature-report response: the byte at `status_index`,
/// or zero when the response is too short to hold it.
pub open spec fn feature_status_byte(response: Seq<u8>, status_index: usize) -> u8 {
    if status_index < response.len() {
        response[status_index as int]
    } else {
        0
    }
}

/// Whether `r` is the decoding of an output-report response.
pub open spec fn output_status_decoded(response: Seq<u8>, r: Result<LocatorStatus, LocatorError>) -> bool {
    if response.len() == 0 || response[0] != RESPONSE_HEADER {
        match r {
            Err(LocatorError::ProtocolMismatch(raw)) => raw@ == response,
            _ => false,
        }
    } else if response.len() < 2 {
        match r {
            Err(LocatorError::InsufficientLength(raw)) => raw@ == response,
            _ => false,
        }
    } else {
        match r {
            Ok(st) => st.mask == response[1] && st.is_on == (response[1] != 0) && st.raw@ == response,
            _ => false,
        }
    }
}

fn sized(report_len: usize, floor: usize) -> (n: usize)
    ensures
        n == report_size(report_len, floor),
{
    if report_len < floor {
        floor
    } else {
        report_len
    }
}

/// A report of `len` zero bytes.
fn zeroed(len: usize) -> (v: Vec<u8>)
    ensures
        v@ == report(len as nat, Seq::empty()),
{
    let mut v: Vec<u8> = Vec::new();
    let mut i: usize = 0;
    while i < len
        invariant
            i <= len,
            v@ == report(i as nat, Seq::empty()),
        decreases len - i,
    {
        v.push(0);
        i = i + 1;
        assert(v@ =~= report(i as nat, Seq::empty()));
    }
    v
}

/// Builds the feature-report status query.
pub fn encode_feature_status_request(protocol: &ProtocolArgs) -> (r: Vec<u8>)
    ensures
        r@ == feature_status_request(*protocol),
{
    let n = sized(protocol.report_len, FEATURE_MIN_LEN);
    let mut r = zeroed(n);
    r[0] = protocol.report_id;
    r[1] = protocol.command_status;
    assert(r@ =~= feature_status_request(*protocol));
    r
}

/// Builds the feature-report set request.
pub fn encode_feature_set_request(protocol: &ProtocolArgs, turn_on: bool, on_value: u8, off_value: u8) -> (r: Vec<u8>)
    ensures
        r@ == feature_set_request(*protocol, turn_on, on_value, off_value),
{
    let n = sized(protocol.report_len, FEATURE_MIN_LEN);
    let mut r = zeroed(n);
    r[0] = protocol.report_id;
    r[1] = protocol.command_set;
    r[2] = if turn_on { on_value } else { off_value };
    assert(r@ =~= feature_set_request(*protocol, turn_on, on_value, off_value));
    r
}

/// Builds the output-report status query.
pub fn encode_output_status_request(args: &OutputReportArgs) -> (r: Vec<u8>)
    ensures
        r@ == output_status_request(*args),
{
    let n = sized(args.report_len, OUTPUT_MIN_LEN);
    let mut r = zeroed(n);
    r[0] = COMMAND_STATUS;
    assert(r@ =~= output_status_request(*args));
    r
}

/// Builds the output-report set request.
pub fn encode_output_set_request(args: &OutputReportArgs, turn_on: bool, on_value: u8, off_value: u8) -> (r: Vec<u8>)
    ensures
        r@ == output_set_request(*args, turn_on, on_value, off_value),
{
    let n = sized(args.report_len, OUTPUT_MIN_LEN);
    let mut r = zeroed(n);
    r[0] = COMMAND_SET;
    r[1] = if turn_on { on_value } else { off_value };
    assert(r@ =~= output_set_request(*args, turn_on, on_value, off_value));
    r
}

/// Decodes a feature-report response. A response too short to hold the status
/// byte reads as off, with a zero mask.
pub fn decode_feature_status(response: Vec<u8>, status_index: usize) -> (r: LocatorStatus)
    ensures
        r.mask == feature_status_byte(response@, status_index),
        r.is_on == (r.mask != 0),
        r.raw@ == response@,
{
    let mask = if status_index < response.len() {
        response[status_index]
    } else {
        0
    };
    LocatorStatus { is_on: mask != 0, mask, raw: response }
}

/// Decodes an output-report response: it must start with the header byte and
/// hold the mask byte after it.
pub fn decode_output_status(response: Vec<u8>) -> (r: Result<LocatorStatus, LocatorError>)
    ensures
        output_status_decoded(response@, r),
{
    if response.len() == 0 || response[0] != RESPONSE_HEADER {
        Err(LocatorError::ProtocolMismatch(response))
    } else if response.len() < 2 {
        Err(LocatorError::InsufficientLength(response))
    } else {
        let mask = response[1];
        Ok(LocatorStatus { is_on: mask != 0, mask, raw: response })
    }
}

/// The part of a receive buffer that holds the `received` bytes the device
/// reported (the whole buffer when it reported more than it holds).
pub open spec fn received_part(buffer: Seq<u8>, received: usize) -> Seq<u8> {
    if received < buffer.len() {
        buffer.subrange(0, received as int)
    } else {
        buffer
    }
}

/// Decodes a feature-report receive buffer of which the device reported
/// `received` bytes; the status keeps only those bytes.
pub fn decode_feature_response(buffer: Vec<u8>, received: usize, status_index: usize) -> (r: LocatorStatus)
    ensures
        r.raw@ == received_part(buffer@, received),
        r.mask == feature_status_byte(r.raw@, status_index),
        r.is_on == (r.mask != 0),
{
    let ghost whole = buffer@;
    let mut response = buffer;
    response.truncate(received);
    assert(response@ =~= received_part(whole, received));
    decode_feature_status(response, status_index)
}

/// Decodes an output-dialect receive buffer of which the device reported
/// `received` bytes, as `decode_output_status` does those bytes.
pub fn decode_output_response(buffer: Vec<u8>, received: usize) -> (r: Result<LocatorStatus, LocatorError>)
    ensures
        output_status_decoded(received_part(buffer@, received), r),
{
    let ghost whole = buffer@;
    let mut response = buffer;
    response.truncate(received);
    assert(response@ =~= received_part(whole, received));
    decode_output_status(response)
}

/// An output-dialect response that does not start with the header byte is a
/// protocol mismatch carrying the response; a header without a mask byte is
/// too short; otherwise the mask byte decides.
pub proof fn lemma_output_response_cases(response: Seq<u8>, r: Result<LocatorStatus, LocatorError>)
    requires
        output_status_decoded(response, r),
    ensures
        (response.len() == 0 || response[0] != RESPONSE_HEADER) ==> (r matches Err(
            LocatorError::ProtocolMismatch(raw),
        ) && raw@ == response),
        response == seq![RESPONSE_HEADER] ==> (r matches Err(LocatorError::InsufficientLength(raw))
            && raw@ == response),
        (response.len() >= 2 && response[0] == RESPONSE_HEADER) ==> (r matches Ok(st) && st.mask
            == response[1] && st.is_on == (response[1] != 0) && st.raw@ == response),
{
}

/// The status query of the configured dialect.
pub open spec fn status_request(config: ProtocolConfig) -> Seq<u8> {
    match config {
        ProtocolConfig::Feature { args, .. } => feature_status_request(args),
        ProtocolConfig::Output(a) => output_status_request(a),
    }
}

/// The set request of the configured dialect.
pub open spec fn set_request(config: ProtocolConfig, turn_on: bool, on_value: u8, off_value: u8) -> Seq<u8> {
    match config {
        ProtocolConfig::Feature { args, .. } => feature_set_request(args, turn_on, on_value, off_value),
        ProtocolConfig::Output(a) => output_set_request(a, turn_on, on_value, off_value),
    }
}

/// The buffer a response is received into: report-sized zeros, whose first
/// byte names the report in the feature dialect.
pub open spec fn response_buffer(config: ProtocolConfig) -> Seq<u8> {
    match config {
        ProtocolConfig::Feature { args, .. } => report(
            report_size(args.report_len, FEATURE_MIN_LEN),
            seq![args.report_id],
        ),
        ProtocolConfig::Output(a) => report(report_size(a.report_len, OUTPUT_MIN_LEN), Seq::empty()),
    }
}

/// Builds the status query of the configured dialect.
pub fn encode_status_request(config: &ProtocolConfig) -> (r: Vec<u8>)
    ensures
        r@ == status_request(*config),
{
    match config {
        ProtocolConfig::Feature { args, .. } => encode_feature_status_request(args),
        ProtocolConfig::Output(a) => encode_output_status_request(a),
    }
}

/// Builds the set request of the configured dialect.
pub fn encode_set_request(config: &ProtocolConfig, turn_on: bool, on_value: u8, off_value: u8) -> (r: Vec<u8>)
    ensures
        r@ == set_request(*config, turn_on, on_value, off_value),
{
    match config {
        ProtocolConfig::Feature { args, .. } => encode_feature_set_request(args, turn_on, on_value, off_value),
        ProtocolConfig::Output(a) => encode_output_set_request(a, turn_on, on_value, off_value),
    }
}

/// Builds the buffer a response of the configured dialect is received into.
pub fn new_response_buffer(config: &ProtocolConfig) -> (r: Vec<u8>)
    ensures
        r@ == response_buffer(*config),
{
    match config {
        ProtocolConfig::Feature { args, .. } => {
            let mut r = zeroed(sized(args.report_len, FEATURE_MIN_LEN));
            r[0] = args.report_id;
            assert(r@ =~= response_buffer(*config));
            r
        },
        ProtocolConfig::Output(a) => {
            let r = zeroed(sized(a.report_len, OUTPUT_MIN_LEN));
            assert(r@ =~= response_buffer(*config));
            r
        },
    }
}

} // verus!
