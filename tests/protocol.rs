use std::cell::RefCell;

use cap_locator::{
    decode_feature_response, decode_output_response, encode_set_request, encode_status_request,
    new_response_buffer, decode_output_status, encode_output_set_request, encode_output_status_request, query_locator,
    query_status, query_status_output, set_light, set_light_output, set_locator, HidDeviceIo,
    LocatorError, OutputReportArgs, ProtocolArgs, ProtocolConfig,
};

/// Records every report sent and answers reads with one programmed response.
struct MockDevice {
    sent: RefCell<Vec<Vec<u8>>>,
    next_response: RefCell<Option<Vec<u8>>>,
}

impl MockDevice {
    fn with_response(response: Vec<u8>) -> Self {
        MockDevice { sent: RefCell::new(Vec::new()), next_response: RefCell::new(Some(response)) }
    }

    fn last_sent(&self) -> Option<Vec<u8>> {
        self.sent.borrow().last().cloned()
    }

    fn answer(&self, data: &mut Vec<u8>) -> Result<usize, String> {
        let response = self
            .next_response
            .borrow_mut()
            .take()
            .ok_or_else(|| "mock response not set".to_string())?;
        let len = std::cmp::min(data.len(), response.len());
        data[..len].copy_from_slice(&response[..len]);
        Ok(len)
    }
}

impl HidDeviceIo for MockDevice {
    fn write(&self, data: &[u8]) -> Result<usize, String> {
        self.sent.borrow_mut().push(data.to_vec());
        Ok(data.len())
    }

    fn read_timeout(&self, data: &mut Vec<u8>, _timeout_ms: i32) -> Result<usize, String> {
        self.answer(data)
    }

    fn send_feature_report(&self, data: &[u8]) -> Result<(), String> {
        self.sent.borrow_mut().push(data.to_vec());
        Ok(())
    }

    fn get_feature_report(&self, data: &mut Vec<u8>) -> Result<usize, String> {
        self.answer(data)
    }
}

#[test]
fn query_status_uses_status_index_and_records_command() {
    let device = MockDevice::with_response(vec![0x05, 0x01, 0x99, 0x00]);
    let protocol = ProtocolArgs {
        report_id: 0x05,
        report_len: 4,
        command_status: 0x10,
        command_set: 0x20,
    };

    let status = query_status(&device, &protocol, 2).unwrap();
    assert!(status.is_on);
    assert_eq!(device.last_sent().unwrap(), vec![0x05, 0x10, 0x00, 0x00]);
    assert_eq!(status.raw, vec![0x05, 0x01, 0x99, 0x00]);
}

#[test]
fn set_light_sends_on_and_off_commands() {
    let device = MockDevice::with_response(vec![0x00]);
    let protocol = ProtocolArgs {
        report_id: 0x07,
        report_len: 4,
        command_status: 0x01,
        command_set: 0xAA,
    };

    set_light(&device, &protocol, true, 0x11, 0x22).unwrap();
    assert_eq!(device.last_sent().unwrap(), vec![0x07, 0xAA, 0x11, 0x00]);

    set_light(&device, &protocol, false, 0x11, 0x22).unwrap();
    assert_eq!(device.last_sent().unwrap(), vec![0x07, 0xAA, 0x22, 0x00]);
}

fn feature_args(report_len: usize) -> ProtocolArgs {
    ProtocolArgs { report_id: 0x05, report_len, command_status: 0x10, command_set: 0x20 }
}

#[test]
fn feature_short_response_reads_as_off() {
    let device = MockDevice::with_response(vec![0x05, 0x01]);
    let status = query_status(&device, &feature_args(4), 2).unwrap();
    assert!(!status.is_on);
    assert_eq!(status.mask, 0);
    assert_eq!(status.raw, vec![0x05, 0x01]);
}

#[test]
fn feature_report_length_is_raised_to_floor() {
    let device = MockDevice::with_response(vec![0x05, 0x00, 0x01]);
    let status = query_status(&device, &feature_args(0), 2).unwrap();
    assert_eq!(device.last_sent().unwrap(), vec![0x05, 0x10, 0x00]);
    assert!(status.is_on);
}

#[test]
fn feature_transport_failure_is_reported() {
    let device = MockDevice { sent: RefCell::new(Vec::new()), next_response: RefCell::new(None) };
    match query_status(&device, &feature_args(4), 2) {
        Err(LocatorError::TransportFailure(m)) => assert_eq!(m, "mock response not set"),
        other => panic!("unexpected {:?}", other),
    }
}

fn output_args() -> OutputReportArgs {
    OutputReportArgs { report_len: 4, read_timeout_ms: 100 }
}

#[test]
fn output_status_checks_header_and_length() {
    assert_eq!(
        decode_output_status(vec![0x00, 0x1F]),
        Err(LocatorError::ProtocolMismatch(vec![0x00, 0x1F]))
    );
    assert_eq!(decode_output_status(vec![]), Err(LocatorError::ProtocolMismatch(vec![])));
    assert_eq!(decode_output_status(vec![0xFF]), Err(LocatorError::InsufficientLength(vec![0xFF])));
    let st = decode_output_status(vec![0xFF, 0x1F]).unwrap();
    assert!(st.is_on);
    assert_eq!(st.mask, 0x1F);
    let off = decode_output_status(vec![0xFF, 0x00, 0x07]).unwrap();
    assert!(!off.is_on);
    assert_eq!(off.raw, vec![0xFF, 0x00, 0x07]);
}

#[test]
fn output_query_round_trip() {
    let device = MockDevice::with_response(vec![0xFF, 0x1F]);
    let st = query_status_output(&device, &output_args()).unwrap();
    assert_eq!(device.last_sent().unwrap(), vec![0x01, 0x00, 0x00, 0x00]);
    assert!(st.is_on);
    assert_eq!(st.mask, 0x1F);
    assert_eq!(st.raw, vec![0xFF, 0x1F]);

    let bad = MockDevice::with_response(vec![0x00, 0x1F]);
    assert!(matches!(query_status_output(&bad, &output_args()), Err(LocatorError::ProtocolMismatch(_))));
    let short = MockDevice::with_response(vec![0xFF]);
    assert_eq!(
        query_status_output(&short, &output_args()),
        Err(LocatorError::InsufficientLength(vec![0xFF]))
    );
}

#[test]
fn output_set_and_floor() {
    let device = MockDevice::with_response(vec![]);
    set_light_output(&device, &output_args(), true, 0x1F, 0x00).unwrap();
    assert_eq!(device.last_sent().unwrap(), vec![0x02, 0x1F, 0x00, 0x00]);
    set_light_output(&device, &output_args(), false, 0x1F, 0x00).unwrap();
    assert_eq!(device.last_sent().unwrap(), vec![0x02, 0x00, 0x00, 0x00]);
    let tiny = OutputReportArgs { report_len: 1, read_timeout_ms: 0 };
    assert_eq!(encode_output_status_request(&tiny), vec![0x01, 0x00]);
    assert_eq!(encode_output_set_request(&tiny, true, 3, 0), vec![0x02, 0x03]);
}

#[test]
fn dispatch_follows_configured_dialect() {
    let device = MockDevice::with_response(vec![0x07, 0x00, 0x00, 0x01]);
    let config = ProtocolConfig::Feature { args: feature_args(4), status_index: 3 };
    let st = query_locator(&device, &config).unwrap();
    assert!(st.is_on);
    assert_eq!(st.mask, 0x01);
    set_locator(&device, &config, false, 1, 0).unwrap();
    assert_eq!(device.last_sent().unwrap(), vec![0x05, 0x20, 0x00, 0x00]);

    let out = MockDevice::with_response(vec![0xFF, 0x00]);
    let config = ProtocolConfig::Output(output_args());
    assert!(!query_locator(&out, &config).unwrap().is_on);
    set_locator(&out, &config, true, 0x1F, 0).unwrap();
    assert_eq!(out.last_sent().unwrap(), vec![0x02, 0x1F, 0x00, 0x00]);
}

#[test]
fn response_decoders_keep_only_received_bytes() {
    let st = decode_feature_response(vec![0x05, 0x01, 0x99, 0x00], 2, 2);
    assert_eq!(st.raw, vec![0x05, 0x01]);
    assert!(!st.is_on);
    let full = decode_feature_response(vec![0x05, 0x01, 0x99, 0x00], 9, 2);
    assert_eq!(full.raw, vec![0x05, 0x01, 0x99, 0x00]);
    assert!(full.is_on);
    assert_eq!(full.mask, 0x99);

    assert_eq!(
        decode_output_response(vec![0xFF, 0x1F, 0x00, 0x00], 1),
        Err(LocatorError::InsufficientLength(vec![0xFF]))
    );
    assert_eq!(
        decode_output_response(vec![0xFF, 0x1F, 0x00, 0x00], 0),
        Err(LocatorError::ProtocolMismatch(vec![]))
    );
    let st = decode_output_response(vec![0xFF, 0x1F, 0x00, 0x00], 2).unwrap();
    assert_eq!(st.raw, vec![0xFF, 0x1F]);
    assert_eq!(st.mask, 0x1F);
}

#[test]
fn config_encoders_follow_dialect() {
    let feature = ProtocolConfig::Feature { args: feature_args(4), status_index: 2 };
    let output = ProtocolConfig::Output(output_args());
    assert_eq!(encode_status_request(&feature), vec![0x05, 0x10, 0x00, 0x00]);
    assert_eq!(encode_status_request(&output), vec![0x01, 0x00, 0x00, 0x00]);
    assert_eq!(encode_set_request(&feature, true, 0x11, 0x22), vec![0x05, 0x20, 0x11, 0x00]);
    assert_eq!(encode_set_request(&output, false, 0x1F, 0x03), vec![0x02, 0x03, 0x00, 0x00]);
    assert_eq!(new_response_buffer(&feature), vec![0x05, 0x00, 0x00, 0x00]);
    assert_eq!(new_response_buffer(&output), vec![0x00, 0x00, 0x00, 0x00]);
}

#[test]
fn output_query_with_bad_header_is_mismatch() {
    let device = MockDevice::with_response(vec![0x00, 0x1F]);
    assert_eq!(
        query_locator(&device, &ProtocolConfig::Output(output_args())),
        Err(LocatorError::ProtocolMismatch(vec![0x00, 0x1F]))
    );
}
