use vstd::prelude::*;
use crate::errors::Error;
use crate::transfer::InterfaceExt;

verus! {

/// The fixed 4-byte bulk command that asks the application firmware for its
/// version.
pub fn version_query_command() -> (c: Vec<u8>)
    ensures
        c@ == seq![0x2au8, 0x01u8, 0x00u8, 0x03u8],
{
    let mut c: Vec<u8> = Vec::new();
    c.push(0x2a);
    c.push(0x01);
    c.push(0x00);
    c.push(0x03);
    assert(c@ =~= seq![0x2au8, 0x01u8, 0x00u8, 0x03u8]);
    c
}

/// The fixed 4-byte bulk command that reboots the probe into bootloader
/// mode.
pub fn reboot_command() -> (c: Vec<u8>)
    ensures
        c@ == seq![0x2au8, 0x01u8, 0x00u8, 0x26u8],
{
    let mut c: Vec<u8> = Vec::new();
    c.push(0x2a);
    c.push(0x01);
    c.push(0x00);
    c.push(0x26);
    assert(c@ =~= seq![0x2au8, 0x01u8, 0x00u8, 0x26u8]);
    c
}

/// The little-endian 32-bit value at bytes i..i+4 of a response.
pub open spec fn le32_at(s: Seq<u8>, i: int) -> int {
    s[i] + s[i + 1] * 0x100 + s[i + 2] * 0x10000 + s[i + 3] * 0x1000000
}

/// Decode a firmware-version response: anything shorter than 11 bytes is
/// invalid; otherwise the version is the little-endian 32-bit value at
/// offset 7..11.
pub fn parse_firmware_version(response: &Vec<u8>) -> (r: Result<u32, Error>)
    ensures
        r is Err <==> response@.len() < 11,
        r is Err ==> r == Err::<u32, Error>(Error::InvalidData),
        r matches Ok(v) ==> v == le32_at(response@, 7),
{
    if response.len() < 11 {
        return Err(Error::InvalidData);
    }
    let v = (response[7] as u32) + (response[8] as u32) * 0x100 + (response[9] as u32) * 0x10000 + (
    response[10] as u32) * 0x1000000;
    Ok(v)
}

/// An application-mode session: an exclusively claimed bulk transport plus
/// the resolved endpoint addresses for this hardware variant.
pub struct Xds110UsbDevice<T> {
    pub device_handle: T,
    pub epout: u8,
    pub epin: u8,
}

impl<T: InterfaceExt> Xds110UsbDevice<T> {
    pub fn new(device_handle: T, epout: u8, epin: u8) -> (d: Xds110UsbDevice<T>)
        ensures
            d.epout == epout,
            d.epin == epin,
    {
        Xds110UsbDevice { device_handle, epout, epin }
    }

    /// Query the application firmware's version: send the fixed query over
    /// bulk-OUT, read up to 13 bytes back, and decode them with
    /// `parse_firmware_version`, whose contract pins the result for every
    /// response the transport can hand back.
    pub fn firmware_version(&mut self) -> (r: Result<u32, Error>)
        ensures
            r matches Err(e) ==> (e == Error::TimedOut || e == Error::TransferFailure || e
                == Error::InvalidData),
    {
        let command = version_query_command();
        match self.device_handle.write_bulk(self.epout, &command, 100) {
            Ok(_) => (),
            Err(e) => {
                return Err(e);
            },
        }
        let response = match self.device_handle.read_bulk(self.epin, 13, 100) {
            Ok(d) => d,
            Err(e) => {
                return Err(e);
            },
        };
        parse_firmware_version(&response)
    }

    /// Send the fixed reboot-to-bootloader command. Consumes the session:
    /// the device is expected to disconnect and re-enumerate afterwards,
    /// which the workflow, not this call, waits for.
    pub fn reboot_to_dfu(self) -> (r: Result<(), Error>)
        ensures
            r matches Err(e) ==> (e == Error::TimedOut || e == Error::TransferFailure),
    {
        let mut this = self;
        let command = reboot_command();
        match this.device_handle.write_bulk(this.epout, &command, 1000) {
            Ok(_) => Ok(()),
            Err(e) => Err(e),
        }
    }
}

} // verus!
