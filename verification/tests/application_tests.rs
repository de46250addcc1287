use xds110_config::errors::Error;
use xds110_config::application::{
    parse_firmware_version, reboot_command, version_query_command, Xds110UsbDevice,
};
use xds110_config::transfer::ScriptedTransport;

#[test]
fn command_packets_are_fixed() {
    assert_eq!(version_query_command(), vec![0x2a, 0x01, 0x00, 0x03]);
    assert_eq!(reboot_command(), vec![0x2a, 0x01, 0x00, 0x26]);
}

#[test]
fn short_version_response_is_invalid() {
    assert_eq!(
        parse_firmware_version(&vec![0u8; 10]),
        Err(Error::InvalidData)
    );
    assert!(parse_firmware_version(&vec![0u8; 11]).is_ok());
}

#[test]
fn version_is_little_endian_at_offset_7() {
    let mut response = vec![0u8; 13];
    response[7] = 0x08;
    response[8] = 0x00;
    response[9] = 0x00;
    response[10] = 0x03;
    assert_eq!(parse_firmware_version(&response), Ok(0x03000008));
}

#[test]
fn firmware_version_round_trip_over_a_transport() {
    let mut response = vec![0u8; 13];
    response[7] = 0x07;
    response[8] = 0x00;
    response[9] = 0x00;
    response[10] = 0x03;
    let transport = ScriptedTransport::new(vec![response]);
    let mut device = Xds110UsbDevice::new(transport, 0x02, 0x83);
    assert_eq!(device.firmware_version(), Ok(0x03000007));
}

#[test]
fn version_query_with_no_answer_times_out() {
    let transport = ScriptedTransport::new(vec![]);
    let mut device = Xds110UsbDevice::new(transport, 0x02, 0x83);
    assert_eq!(device.firmware_version(), Err(Error::TimedOut));
}

#[test]
fn reboot_consumes_the_session() {
    let transport = ScriptedTransport::new(vec![]);
    let device = Xds110UsbDevice::new(transport, 0x02, 0x83);
    assert_eq!(device.reboot_to_dfu(), Ok(()));
}
