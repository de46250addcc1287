use xds110_config::errors::Error;
use xds110_config::matcher::{
    endpoints_present, find_usb_entry, resolve_dfu_device, resolve_usb_device,
    xds110_dfu_devices, xds110_usb_devices, AttachedDevice,
};

fn dev(vid: u16, pid: u16) -> AttachedDevice {
    AttachedDevice { vid, pid }
}

#[test]
fn tables_hold_the_supported_hardware() {
    let usb = xds110_usb_devices();
    assert_eq!(usb.len(), 3);
    assert_eq!((usb[0].vid, usb[0].pid), (0x0451, 0xbef3));
    assert_eq!((usb[0].epin, usb[0].epout, usb[0].interface_number), (0x83, 0x02, 2));
    assert_eq!((usb[2].vid, usb[2].pid), (0x1cbe, 0x02a5));
    let dfu = xds110_dfu_devices();
    assert_eq!(dfu.len(), 1);
    assert_eq!((dfu[0].vid, dfu[0].pid), (0x1cbe, 0x00ff));
}

#[test]
fn no_attached_device_is_not_found() {
    let devices = vec![dev(0x1234, 0x5678)];
    assert_eq!(resolve_dfu_device(&devices), Err(Error::NotFound));
    assert_eq!(resolve_usb_device(&devices), Err(Error::NotFound));
    assert_eq!(resolve_dfu_device(&vec![]), Err(Error::NotFound));
}

#[test]
fn single_match_is_resolved_by_index() {
    let devices = vec![dev(0x1234, 0x5678), dev(0x1cbe, 0x00ff), dev(0xaaaa, 0xbbbb)];
    assert_eq!(resolve_dfu_device(&devices), Ok(1));
    let devices = vec![dev(0x0451, 0xbef4)];
    assert_eq!(resolve_usb_device(&devices), Ok(0));
}

#[test]
fn two_bootloader_matches_are_refused() {
    let devices = vec![dev(0x1cbe, 0x00ff), dev(0x9999, 0x0001), dev(0x1cbe, 0x00ff)];
    assert_eq!(resolve_dfu_device(&devices), Err(Error::AmbiguousMatch));
}

#[test]
fn two_application_matches_are_refused() {
    let devices = vec![dev(0x0451, 0xbef3), dev(0x1cbe, 0x02a5)];
    assert_eq!(resolve_usb_device(&devices), Err(Error::AmbiguousMatch));
}

#[test]
fn matched_device_yields_its_table_row() {
    let entry = find_usb_entry(&dev(0x1cbe, 0x02a5)).unwrap();
    assert_eq!((entry.epin, entry.epout, entry.interface_number), (0x81, 0x01, 0));
    assert!(find_usb_entry(&dev(0x1cbe, 0x00ff)).is_none());
}

#[test]
fn both_endpoints_must_be_present() {
    let addresses = vec![0x01, 0x81, 0x02];
    assert!(endpoints_present(&addresses, 0x81, 0x01));
    assert!(!endpoints_present(&addresses, 0x83, 0x01));
    assert!(!endpoints_present(&vec![], 0x81, 0x01));
}
