use cap_locator::{
    load_env_defaults, merge_filter, pick_single_device, select_devices, snapshot_devices,
    DeviceDescriptor, EnvDefaults, FilterArgs, FilterField, LocatorError,
};

fn device(path: &str, vendor_id: u16, product_id: u16, serial: Option<&str>) -> DeviceDescriptor {
    DeviceDescriptor::from_info(
        path.to_string(),
        vendor_id,
        product_id,
        serial.map(|s| s.to_string()),
        None,
        None,
    )
}

fn no_filter() -> FilterArgs {
    FilterArgs { vendor_id: None, product_id: None, usage_page: None, usage: None }
}

#[test]
fn merge_filter_prefers_cli_over_env_defaults() {
    let cli = FilterArgs {
        vendor_id: Some(0x1234),
        product_id: None,
        usage_page: Some(0x01),
        usage: None,
    };
    let env = EnvDefaults {
        vendor_id: Some(0x9999),
        product_id: Some(0x7777),
        usage_page: None,
        usage: Some(0x02),
    };

    let merged = merge_filter(&cli, &env);
    assert_eq!(merged.vendor_id, Some(0x1234));
    assert_eq!(merged.product_id, Some(0x7777));
    assert_eq!(merged.usage_page, Some(0x01));
    assert_eq!(merged.usage, Some(0x02));
}

#[test]
fn merge_filter_fills_missing_from_env() {
    let cli = FilterArgs {
        vendor_id: None,
        product_id: None,
        usage_page: None,
        usage: None,
    };
    let env = EnvDefaults {
        vendor_id: Some(1),
        product_id: Some(2),
        usage_page: Some(3),
        usage: Some(4),
    };

    let merged = merge_filter(&cli, &env);
    assert_eq!(merged.vendor_id, Some(1));
    assert_eq!(merged.product_id, Some(2));
    assert_eq!(merged.usage_page, Some(3));
    assert_eq!(merged.usage, Some(4));
}

#[test]
fn merge_filter_both_absent_is_wildcard() {
    let env = EnvDefaults { vendor_id: None, product_id: Some(5), usage_page: None, usage: None };
    let merged = merge_filter(&no_filter(), &env);
    assert_eq!(merged.vendor_id, None);
    assert_eq!(merged.product_id, Some(5));
}

#[test]
fn empty_serial_is_recorded_as_absent() {
    let d = device("/dev/hidraw0", 1, 2, Some(""));
    assert_eq!(d.serial_number, None);
    assert_eq!(d.locator_id(), "/dev/hidraw0");
    let e = device("/dev/hidraw0", 1, 2, Some("SN1"));
    assert_eq!(e.locator_id(), "SN1");
}

#[test]
fn matches_id_on_serial_and_path() {
    let d = device("/dev/hidraw3", 1, 2, Some("ABC123"));
    assert!(!d.matches_id(""));
    assert!(d.matches_id("ABC123"));
    assert!(d.matches_id("C12"));
    assert!(d.matches_id("hidraw3"));
    assert!(!d.matches_id("XYZ"));
    assert!(!d.matches_id("ABC1234"));
    let e = device("/dev/hidraw4", 1, 2, None);
    assert!(!e.matches_id(""));
    assert!(e.matches_id("raw4"));
    assert!(!e.matches_id("ABC"));
}

#[test]
fn filter_keeps_order_and_treats_unreported_usage_as_wildcard() {
    let mut a = device("/a", 0x10, 0x20, None);
    a.usage_page = Some(0xff00);
    let b = device("/b", 0x10, 0x21, None);
    let c = device("/c", 0x11, 0x20, None);
    let d = device("/d", 0x10, 0x20, Some("S"));
    let filter = FilterArgs { vendor_id: Some(0x10), product_id: None, usage_page: Some(0x0001), usage: None };
    let kept = snapshot_devices(vec![a, b, c, d], &filter);
    let paths: Vec<String> = kept.iter().map(|x| x.path.clone()).collect();
    assert_eq!(paths, vec!["/b".to_string(), "/d".to_string()]);
}

#[test]
fn resolve_single_counts_candidates() {
    let devices = vec![device("/a", 1, 1, Some("one")), device("/b", 1, 2, Some("two"))];
    assert_eq!(
        pick_single_device(devices.clone(), &FilterArgs { vendor_id: Some(9), ..no_filter() }, None),
        Err(LocatorError::NotFound(None))
    );
    assert_eq!(
        pick_single_device(devices.clone(), &no_filter(), Some("three")),
        Err(LocatorError::NotFound(Some("three".to_string())))
    );
    assert_eq!(
        pick_single_device(devices.clone(), &no_filter(), Some("two")).unwrap().path,
        "/b"
    );
    assert_eq!(
        pick_single_device(devices.clone(), &FilterArgs { product_id: Some(1), ..no_filter() }, None)
            .unwrap()
            .path,
        "/a"
    );
    assert_eq!(pick_single_device(devices.clone(), &no_filter(), None), Err(LocatorError::Ambiguous));
    assert_eq!(pick_single_device(devices.clone(), &no_filter(), Some("")), Err(LocatorError::Ambiguous));
    assert_eq!(select_devices(devices, &no_filter(), Some("/")).len(), 2);
}

#[test]
fn env_defaults_are_parsed_or_named_on_failure() {
    let ok = load_env_defaults(Some("0x1234"), None, Some("1"), Some("0X2")).unwrap();
    assert_eq!(ok, EnvDefaults { vendor_id: Some(0x1234), product_id: None, usage_page: Some(1), usage: Some(2) });
    match load_env_defaults(Some("1"), Some("zz"), Some("bad"), None) {
        Err(LocatorError::ConfigParseError { field, message }) => {
            assert_eq!(field, FilterField::ProductId);
            assert_eq!(message, "invalid digit found in string");
        }
        other => panic!("unexpected {:?}", other),
    }
    match load_env_defaults(None, None, None, Some("70000")) {
        Err(LocatorError::ConfigParseError { field, .. }) => assert_eq!(field, FilterField::Usage),
        other => panic!("unexpected {:?}", other),
    }
}
