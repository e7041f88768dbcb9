//! Discovered devices, their selection, and the report exchange with one of them.
use vstd::prelude::*;
use vstd::string::StringSliceAdditionalSpecFns;
use vstd::utf8::encode_utf8;

use crate::cli::{FilterArgs, ProtocolArgs};
use crate::error::LocatorError;
use crate::protocol::{
    decode_feature_response, decode_output_response, encode_feature_set_request,
    encode_output_set_request, encode_set_request, encode_status_request, feature_status_byte,
    new_response_buffer, output_status_decoded,
    LocatorStatus, OutputReportArgs, ProtocolConfig,
};

verus! {

/// One device as the host enumerated it.
#[derive(Clone, Debug, PartialEq, Eq)]
pub struct DeviceDescriptor {
    /// System path of the device; unique among the enumerated devices.
    pub path: String,
    pub vendor_id: u16,
    pub product_id: u16,
    /// Serial number; never empty (an empty one is recorded as absent).
    pub serial_number: Option<String>,
    /// Usage page, where the platform reports it.
    pub usage_page: Option<u16>,
    /// Usage, where the platform reports it.
    pub usage: Option<u16>,
}

/// Whether `needle` occurs in `hay` as a contiguous run.
pub open spec fn contains_seq(hay: Seq<u8>, needle: Seq<u8>) -> bool {
    exists|i: int|
        0 <= i && i + needle.len() <= hay.len() && #[trigger] hay.subrange(i, i + needle.len())
            == needle
}

/// The UTF-8 bytes of a string.
pub open spec fn text_bytes(s: String) -> Seq<u8> {
    encode_utf8(s@)
}

/// Whether a non-empty `query` occurs in the serial number or in the path.
pub open spec fn id_matches(d: DeviceDescriptor, query: &str) -> bool {
    query@.len() > 0 && ((d.serial_number is Some && contains_seq(
        text_bytes(d.serial_number->0),
        query.spec_bytes(),
    )) || contains_seq(text_bytes(d.path), query.spec_bytes()))
}

/// An absent criterion, or a field the platform does not report, matches.
pub open spec fn field_matches(want: Option<u16>, have: Option<u16>) -> bool {
    match (want, have) {
        (Some(w), Some(h)) => w == h,
        _ => true,
    }
}

/// Whether a device meets every present criterion of the filter.
pub open spec fn filter_matches(d: DeviceDescriptor, f: FilterArgs) -> bool {
    field_matches(f.vendor_id, Some(d.vendor_id)) && field_matches(
        f.product_id,
        Some(d.product_id),
    ) && field_matches(f.usage_page, d.usage_page) && field_matches(f.usage, d.usage)
}

/// The devices a selection leaves: those meeting the filter, narrowed by the
/// identifier when one is given and non-empty; enumeration order is kept.
pub open spec fn candidates(devices: Seq<DeviceDescriptor>, f: FilterArgs, id: Option<&str>) -> Seq<
    DeviceDescriptor,
> {
    let listed = devices.filter(|d: DeviceDescriptor| filter_matches(d, f));
    match id {
        Some(q) => if q@.len() > 0 {
            listed.filter(|d: DeviceDescriptor| id_matches(d, q))
        } else {
            listed
        },
        None => listed,
    }
}

fn contains_bytes(hay: &[u8], needle: &[u8]) -> (r: bool)
    ensures
        r == contains_seq(hay@, needle@),
{
    if needle.len() > hay.len() {
        return false;
    }
    let hay_len = hay.len();
    let last = hay_len - needle.len();
    let mut i: usize = 0;
    loop
        invariant
            hay_len == hay@.len(),
            last + needle@.len() == hay@.len(),
            i <= last,
            forall|k: int|
                0 <= k < i ==> #[trigger] hay@.subrange(k, k + needle@.len()) != needle@,
        decreases last - i,
    {
        let mut j: usize = 0;
        let mut same = true;
        while j < needle.len()
            invariant
                hay_len == hay@.len(),
                i <= last,
                last + needle@.len() == hay@.len(),
                j <= needle@.len(),
                same <==> forall|m: int| 0 <= m < j ==> hay@[i + m] == needle@[m],
            decreases needle@.len() - j,
        {
            if hay[i + j] != needle[j] {
                same = false;
            }
            j = j + 1;
        }
        if same {
            assert(hay@.subrange(i as int, i + needle@.len()) =~= needle@);
            return true;
        }
        let ghost m = choose|m: int| 0 <= m < needle@.len() && hay@[i + m] != needle@[m];
        assert(hay@.subrange(i as int, i + needle@.len())[m] != needle@[m]);
        if i == last {
            assert forall|k: int|
                0 <= k && k + needle@.len() <= hay@.len() implies #[trigger] hay@.subrange(
                k,
                k + needle@.len(),
            ) != needle@ by {
                if k == i as int {
                    assert(hay@.subrange(k, k + needle@.len())[m] != needle@[m]);
                }
            }
            return false;
        }
        i = i + 1;
    }
}

impl DeviceDescriptor {
    /// Records an enumerated device; an empty serial number is recorded as absent.
    pub fn from_info(
        path: String,
        vendor_id: u16,
        product_id: u16,
        serial_number: Option<String>,
        usage_page: Option<u16>,
        usage: Option<u16>,
    ) -> (r: Self)
        ensures
            r.path == path,
            r.vendor_id == vendor_id,
            r.product_id == product_id,
            r.serial_number == (match serial_number {
                Some(s) => if s@.len() == 0 {
                    None
                } else {
                    Some(s)
                },
                None => None,
            }),
            r.usage_page == usage_page,
            r.usage == usage,
    {
        let serial_number = match serial_number {
            Some(s) => if s.as_str().is_empty() {
                None
            } else {
                Some(s)
            },
            None => None,
        };
        DeviceDescriptor { path, vendor_id, product_id, serial_number, usage_page, usage }
    }

    /// The identity shown for the device: its serial number, else its path.
    pub fn locator_id(&self) -> (r: String)
        ensures
            r@ == (match self.serial_number {
                Some(s) => s@,
                None => self.path@,
            }),
    {
        match &self.serial_number {
            Some(s) => s.clone(),
            None => self.path.clone(),
        }
    }

    /// Whether a non-empty `query` occurs in the serial number (equal to it
    /// included) or in the path.
    pub fn matches_id(&self, query: &str) -> (r: bool)
        ensures
            r == id_matches(*self, query),
    {
        if query.is_empty() {
            return false;
        }
        let q = query.as_bytes();
        let serial_match = match &self.serial_number {
            Some(s) => contains_bytes(s.as_str().as_bytes(), q),
            None => false,
        };
        serial_match || contains_bytes(self.path.as_str().as_bytes(), q)
    }
}

/// An empty query matches no device.
pub proof fn lemma_empty_query_matches_nothing(d: DeviceDescriptor, query: &str)
    requires
        query@.len() == 0,
    ensures
        !id_matches(d, query),
{
}

fn field_ok(want: Option<u16>, have: Option<u16>) -> (r: bool)
    ensures
        r == field_matches(want, have),
{
    match (want, have) {
        (Some(w), Some(h)) => w == h,
        _ => true,
    }
}

/// Whether a device meets every present criterion of the filter.
pub fn matches_filter(d: &DeviceDescriptor, filter: &FilterArgs) -> (r: bool)
    ensures
        r == filter_matches(*d, *filter),
{
    field_ok(filter.vendor_id, Some(d.vendor_id)) && field_ok(filter.product_id, Some(d.product_id))
        && field_ok(filter.usage_page, d.usage_page) && field_ok(filter.usage, d.usage)
}

/// One criterion a device is kept by.
enum Criterion<'a> {
    Filter(FilterArgs),
    Id(&'a str),
}

spec fn meets(d: DeviceDescriptor, c: Criterion) -> bool {
    match c {
        Criterion::Filter(f) => filter_matches(d, f),
        Criterion::Id(q) => id_matches(d, q),
    }
}

/// The devices that meet `c`, in their order.
fn keep_meeting(devices: Vec<DeviceDescriptor>, c: &Criterion) -> (r: Vec<DeviceDescriptor>)
    ensures
        r@ == devices@.filter(|d: DeviceDescriptor| meets(d, *c)),
{
    let ghost all = devices@;
    let ghost pred = |d: DeviceDescriptor| meets(d, *c);
    let mut rest = devices;
    let mut out: Vec<DeviceDescriptor> = Vec::new();
    let mut k: usize = 0;
    let n = rest.len();
    while k < n
        invariant
            n == all.len(),
            k <= n,
            rest@ == all.subrange(k as int, n as int),
            out@ == all.subrange(0, k as int).filter(pred),
            pred == (|d: DeviceDescriptor| meets(d, *c)),
        decreases n - k,
    {
        let d = rest.remove(0);
        assert(all.subrange(0, k + 1).drop_last() =~= all.subrange(0, k as int));
        assert(all.subrange(k + 1, n as int) =~= all.subrange(k as int, n as int).remove(0));
        let ghost pre = all.subrange(0, k + 1);
        assert(pre.last() == d);
        let keep = match c {
            Criterion::Filter(f) => matches_filter(&d, f),
            Criterion::Id(q) => d.matches_id(q),
        };
        assert(pred(d) == keep);
        if keep {
            out.push(d);
        }
        reveal(Seq::filter);
        assert(pre.filter(pred) == (if pred(pre.last()) {
            pre.drop_last().filter(pred).push(pre.last())
        } else {
            pre.drop_last().filter(pred)
        }));
        k = k + 1;
    }
    assert(all.subrange(0, n as int) =~= all);
    out
}

/// The enumerated devices that meet the filter, in enumeration order.
pub fn snapshot_devices(devices: Vec<DeviceDescriptor>, filter: &FilterArgs) -> (r: Vec<
    DeviceDescriptor,
>)
    ensures
        r@ == devices@.filter(|d: DeviceDescriptor| filter_matches(d, *filter)),
{
    let c = Criterion::Filter(*filter);
    let r = keep_meeting(devices, &c);
    assert((|d: DeviceDescriptor| meets(d, c)) =~= (|d: DeviceDescriptor| filter_matches(d, *filter)));
    r
}

/// The devices whose serial number or path holds `query`, in their order.
pub fn retain_matching_id(devices: Vec<DeviceDescriptor>, query: &str) -> (r: Vec<DeviceDescriptor>)
    ensures
        r@ == devices@.filter(|d: DeviceDescriptor| id_matches(d, query)),
{
    let c = Criterion::Id(query);
    let r = keep_meeting(devices, &c);
    assert((|d: DeviceDescriptor| meets(d, c)) =~= (|d: DeviceDescriptor| id_matches(d, query)));
    r
}

/// The devices a selection leaves (see `candidates`).
pub fn select_devices(devices: Vec<DeviceDescriptor>, filter: &FilterArgs, id: Option<&str>) -> (r:
    Vec<DeviceDescriptor>)
    ensures
        r@ == candidates(devices@, *filter, id),
{
    let listed = snapshot_devices(devices, filter);
    match id {
        Some(q) => if !q.is_empty() {
            retain_matching_id(listed, q)
        } else {
            listed
        },
        None => listed,
    }
}

/// Resolves a selection to exactly one device: none left is `NotFound`
/// (carrying the identifier, if one was given), more than one is `Ambiguous`.
pub fn pick_single_device(devices: Vec<DeviceDescriptor>, filter: &FilterArgs, id: Option<&str>) -> (r:
    Result<DeviceDescriptor, LocatorError>)
    ensures
        ({
            let c = candidates(devices@, *filter, id);
            &&& c.len() == 0 ==> (r matches Err(LocatorError::NotFound(named)) && match (named, id) {
                (Some(s), Some(q)) => s@ == q@,
                (None, None) => true,
                _ => false,
            })
            &&& c.len() == 1 ==> r == Ok::<DeviceDescriptor, LocatorError>(c[0])
            &&& c.len() >= 2 ==> r == Err::<DeviceDescriptor, LocatorError>(LocatorError::Ambiguous)
        }),
{
    let mut c = select_devices(devices, filter, id);
    if c.len() == 0 {
        let named = match id {
            Some(q) => Some(q.to_owned()),
            None => None,
        };
        Err(LocatorError::NotFound(named))
    } else if c.len() == 1 {
        Ok(c.remove(0))
    } else {
        Err(LocatorError::Ambiguous)
    }
}

/// Report exchange with one opened device. The real device and in-memory
/// fakes implement it; errors are the transport's own text.
pub trait HidDeviceIo {
    /// Sends an output report; returns the number of bytes written.
    fn write(&self, data: &[u8]) -> Result<usize, String>;

    /// Receives an input report into `data`, waiting at most `timeout_ms`;
    /// returns the number of bytes received.
    fn read_timeout(&self, data: &mut Vec<u8>, timeout_ms: i32) -> Result<usize, String>;

    /// Sends a feature report.
    fn send_feature_report(&self, data: &[u8]) -> Result<(), String>;

    /// Receives a feature report into `data`, whose first byte names the
    /// report; returns the number of bytes received.
    fn get_feature_report(&self, data: &mut Vec<u8>) -> Result<usize, String>;
}

/// Whether `r` is a possible outcome of a feature-report status query.
pub open spec fn feature_query_outcome(r: Result<LocatorStatus, LocatorError>, status_index: usize) -> bool {
    match r {
        Ok(st) => st.mask == feature_status_byte(st.raw@, status_index) && st.is_on == (st.mask != 0),
        Err(LocatorError::TransportFailure(_)) => true,
        _ => false,
    }
}

/// Whether `r` is a possible outcome of an output-report status query.
pub open spec fn output_query_outcome(r: Result<LocatorStatus, LocatorError>) -> bool {
    match r {
        Ok(st) => output_status_decoded(st.raw@, r),
        Err(LocatorError::ProtocolMismatch(raw)) => output_status_decoded(raw@, r),
        Err(LocatorError::InsufficientLength(raw)) => output_status_decoded(raw@, r),
        Err(LocatorError::TransportFailure(_)) => true,
        _ => false,
    }
}

/// Whether `r` is a possible outcome of sending one report.
pub open spec fn send_outcome(r: Result<(), LocatorError>) -> bool {
    match r {
        Ok(()) => true,
        Err(LocatorError::TransportFailure(_)) => true,
        _ => false,
    }
}

/// Sends one report on the channel of the configured dialect: a feature
/// report, or an output report.
fn send_report<D: HidDeviceIo>(device: &D, config: &ProtocolConfig, report: &[u8]) -> (r: Result<
    (),
    LocatorError,
>)
    ensures
        send_outcome(r),
{
    match config {
        ProtocolConfig::Feature { .. } => match device.send_feature_report(report) {
            Ok(()) => Ok(()),
            Err(e) => Err(LocatorError::TransportFailure(e)),
        },
        ProtocolConfig::Output(_) => match device.write(report) {
            Ok(_) => Ok(()),
            Err(e) => Err(LocatorError::TransportFailure(e)),
        },
    }
}

/// Status query in the configured dialect: sends `encode_status_request`,
/// receives into `new_response_buffer` (a feature report, or an input report
/// with the configured timeout), and hands that buffer and the count the
/// device reported to `decode_feature_response` or `decode_output_response`.
pub fn query_locator<D: HidDeviceIo>(device: &D, config: &ProtocolConfig) -> (r: Result<
    LocatorStatus,
    LocatorError,
>)
    ensures
        match *config {
            ProtocolConfig::Feature { status_index, .. } => feature_query_outcome(r, status_index),
            ProtocolConfig::Output(_) => output_query_outcome(r),
        },
{
    let request = encode_status_request(config);
    if let Err(e) = send_report(device, config, request.as_slice()) {
        return Err(e);
    }
    let mut buffer = new_response_buffer(config);
    match config {
        ProtocolConfig::Feature { status_index, .. } => match device.get_feature_report(&mut buffer) {
            Ok(received) => Ok(decode_feature_response(buffer, received, *status_index)),
            Err(e) => Err(LocatorError::TransportFailure(e)),
        },
        ProtocolConfig::Output(a) => match device.read_timeout(&mut buffer, a.read_timeout_ms) {
            Ok(received) => decode_output_response(buffer, received),
            Err(e) => Err(LocatorError::TransportFailure(e)),
        },
    }
}

/// Set request in the configured dialect: sends `encode_set_request` as one
/// report on that dialect's channel.
pub fn set_locator<D: HidDeviceIo>(
    device: &D,
    config: &ProtocolConfig,
    turn_on: bool,
    on_value: u8,
    off_value: u8,
) -> (r: Result<(), LocatorError>)
    ensures
        send_outcome(r),
{
    let report = encode_set_request(config, turn_on, on_value, off_value);
    send_report(device, config, report.as_slice())
}

/// Feature-report status query, as `query_locator` with the feature dialect.
pub fn query_status<D: HidDeviceIo>(device: &D, protocol: &ProtocolArgs, status_index: usize) -> (r:
    Result<LocatorStatus, LocatorError>)
    ensures
        feature_query_outcome(r, status_index),
{
    query_locator(device, &ProtocolConfig::Feature { args: *protocol, status_index })
}

/// Feature-report set: sends `encode_feature_set_request` as one feature report.
pub fn set_light<D: HidDeviceIo>(
    device: &D,
    protocol: &ProtocolArgs,
    turn_on: bool,
    on_value: u8,
    off_value: u8,
) -> (r: Result<(), LocatorError>)
    ensures
        send_outcome(r),
{
    let report = encode_feature_set_request(protocol, turn_on, on_value, off_value);
    match device.send_feature_report(report.as_slice()) {
        Ok(()) => Ok(()),
        Err(e) => Err(LocatorError::TransportFailure(e)),
    }
}

/// Output-report status query, as `query_locator` with the output dialect.
pub fn query_status_output<D: HidDeviceIo>(device: &D, args: &OutputReportArgs) -> (r: Result<
    LocatorStatus,
    LocatorError,
>)
    ensures
        output_query_outcome(r),
{
    query_locator(device, &ProtocolConfig::Output(*args))
}

/// Output-report set: writes `encode_output_set_request` as one output report.
pub fn set_light_output<D: HidDeviceIo>(
    device: &D,
    args: &OutputReportArgs,
    turn_on: bool,
    on_value: u8,
    off_value: u8,
) -> (r: Result<(), LocatorError>)
    ensures
        send_outcome(r),
{
    let report = encode_output_set_request(args, turn_on, on_value, off_value);
    match device.write(report.as_slice()) {
        Ok(_) => Ok(()),
        Err(e) => Err(LocatorError::TransportFailure(e)),
    }
}

} // verus!
