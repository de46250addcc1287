use vstd::prelude::*;
use crate::errors::Error;

verus! {

/// One row of the application-mode table: which (vendor, product) pair to
/// accept and which bulk endpoints and interface that hardware variant uses.
#[derive(Clone, Copy, PartialEq, Eq, Structural, Debug)]
pub struct UsbDeviceMatch {
    pub vid: u16,
    pub pid: u16,
    pub epin: u8,
    pub epout: u8,
    pub interface_number: u8,
}

/// One row of the bootloader-mode table: bootloader mode exposes a single
/// well-known control interface, so only the identity pair is needed.
#[derive(Clone, Copy, PartialEq, Eq, Structural, Debug)]
pub struct DfuDeviceMatch {
    pub vid: u16,
    pub pid: u16,
}

/// The identity of one currently attached device, as enumeration reports it.
#[derive(Clone, Copy, PartialEq, Eq, Structural, Debug)]
pub struct AttachedDevice {
    pub vid: u16,
    pub pid: u16,
}

/// The compiled-in application-mode table; adding hardware support means
/// adding a row here.
pub open spec fn usb_match_table() -> Seq<UsbDeviceMatch> {
    seq![
        UsbDeviceMatch { vid: 0x0451, pid: 0xbef3, epin: 0x83, epout: 0x02, interface_number: 2 },
        UsbDeviceMatch { vid: 0x0451, pid: 0xbef4, epin: 0x83, epout: 0x02, interface_number: 2 },
        UsbDeviceMatch { vid: 0x1cbe, pid: 0x02a5, epin: 0x81, epout: 0x01, interface_number: 0 },
    ]
}

/// The compiled-in bootloader-mode table.
pub open spec fn dfu_match_table() -> Seq<DfuDeviceMatch> {
    seq![DfuDeviceMatch { vid: 0x1cbe, pid: 0x00ff }]
}

pub fn xds110_usb_devices() -> (table: Vec<UsbDeviceMatch>)
    ensures
        table@ == usb_match_table(),
{
    let mut table: Vec<UsbDeviceMatch> = Vec::new();
    table.push(UsbDeviceMatch { vid: 0x0451, pid: 0xbef3, epin: 0x83, epout: 0x02, interface_number: 2 });
    table.push(UsbDeviceMatch { vid: 0x0451, pid: 0xbef4, epin: 0x83, epout: 0x02, interface_number: 2 });
    table.push(UsbDeviceMatch { vid: 0x1cbe, pid: 0x02a5, epin: 0x81, epout: 0x01, interface_number: 0 });
    assert(table@ =~= usb_match_table());
    table
}

pub fn xds110_dfu_devices() -> (table: Vec<DfuDeviceMatch>)
    ensures
        table@ == dfu_match_table(),
{
    let mut table: Vec<DfuDeviceMatch> = Vec::new();
    table.push(DfuDeviceMatch { vid: 0x1cbe, pid: 0x00ff });
    assert(table@ =~= dfu_match_table());
    table
}

/// Whether an attached device is an application-mode probe.
pub open spec fn device_matches_usb(d: AttachedDevice) -> bool {
    exists|j: int|
        0 <= j < usb_match_table().len() && d.vid == usb_match_table()[j].vid && d.pid
            == usb_match_table()[j].pid
}

/// Whether an attached device is a bootloader-mode probe.
pub open spec fn device_matches_dfu(d: AttachedDevice) -> bool {
    exists|j: int|
        0 <= j < dfu_match_table().len() && d.vid == dfu_match_table()[j].vid && d.pid
            == dfu_match_table()[j].pid
}

fn matches_usb_table(d: &AttachedDevice) -> (b: bool)
    ensures
        b == device_matches_usb(*d),
{
    let b = (d.vid == 0x0451 && d.pid == 0xbef3) || (d.vid == 0x0451 && d.pid == 0xbef4) || (
    d.vid == 0x1cbe && d.pid == 0x02a5);
    proof {
        if b {
            if d.vid == 0x0451 && d.pid == 0xbef3 {
                assert(device_matches_usb(*d)) by {
                    assert(usb_match_table()[0].vid == 0x0451);
                }
            } else if d.vid == 0x0451 && d.pid == 0xbef4 {
                assert(device_matches_usb(*d)) by {
                    assert(usb_match_table()[1].vid == 0x0451);
                }
            } else {
                assert(device_matches_usb(*d)) by {
                    assert(usb_match_table()[2].vid == 0x1cbe);
                }
            }
        } else {
            if device_matches_usb(*d) {
                let j = choose|j: int|
                    0 <= j < usb_match_table().len() && d.vid == usb_match_table()[j].vid && d.pid
                        == usb_match_table()[j].pid;
                assert(j == 0 || j == 1 || j == 2);
            }
        }
    }
    b
}

fn matches_dfu_table(d: &AttachedDevice) -> (b: bool)
    ensures
        b == device_matches_dfu(*d),
{
    let b = d.vid == 0x1cbe && d.pid == 0x00ff;
    proof {
        if b {
            assert(device_matches_dfu(*d)) by {
                assert(dfu_match_table()[0].vid == 0x1cbe);
            }
        } else {
            if device_matches_dfu(*d) {
                let j = choose|j: int|
                    0 <= j < dfu_match_table().len() && d.vid == dfu_match_table()[j].vid && d.pid
                        == dfu_match_table()[j].pid;
                assert(j == 0);
            }
        }
    }
    b
}

/// Resolve exactly one application-mode probe among the attached devices.
/// More than one match is refused outright rather than guessed among.
pub fn resolve_usb_device(devices: &Vec<AttachedDevice>) -> (r: Result<usize, Error>)
    ensures
        (r matches Ok(i) ==> i < devices@.len() && device_matches_usb(devices@[i as int]) && forall|
            k: int,
        | 0 <= k < devices@.len() && k != i ==> !device_matches_usb(devices@[k])),
        r == Err::<usize, Error>(Error::NotFound) <==> forall|k: int|
            0 <= k < devices@.len() ==> !device_matches_usb(devices@[k]),
        r == Err::<usize, Error>(Error::AmbiguousMatch) <==> exists|k1: int, k2: int|
            0 <= k1 < k2 < devices@.len() && device_matches_usb(devices@[k1]) && device_matches_usb(
                devices@[k2],
            ),
        r is Err ==> (r == Err::<usize, Error>(Error::NotFound) || r == Err::<usize, Error>(
            Error::AmbiguousMatch,
        )),
{
    let mut found: Option<usize> = None;
    let mut idx: usize = 0;
    while idx < devices.len()
        invariant
            idx <= devices@.len(),
            found matches Some(i) ==> i < idx && device_matches_usb(devices@[i as int]) && forall|
                k: int,
            | 0 <= k < idx && k != i ==> !device_matches_usb(devices@[k]),
            found is None ==> forall|k: int| 0 <= k < idx ==> !device_matches_usb(devices@[k]),
        decreases devices@.len() - idx,
    {
        if matches_usb_table(&devices[idx]) {
            match found {
                Some(first) => {
                    assert(device_matches_usb(devices@[first as int]) && device_matches_usb(
                        devices@[idx as int],
                    ) && first < idx);
                    return Err(Error::AmbiguousMatch);
                },
                None => {
                    found = Some(idx);
                },
            }
        }
        idx += 1;
    }
    match found {
        Some(i) => Ok(i),
        None => Err(Error::NotFound),
    }
}

/// Resolve exactly one bootloader-mode probe among the attached devices.
pub fn resolve_dfu_device(devices: &Vec<AttachedDevice>) -> (r: Result<usize, Error>)
    ensures
        (r matches Ok(i) ==> i < devices@.len() && device_matches_dfu(devices@[i as int]) && forall|
            k: int,
        | 0 <= k < devices@.len() && k != i ==> !device_matches_dfu(devices@[k])),
        r == Err::<usize, Error>(Error::NotFound) <==> forall|k: int|
            0 <= k < devices@.len() ==> !device_matches_dfu(devices@[k]),
        r == Err::<usize, Error>(Error::AmbiguousMatch) <==> exists|k1: int, k2: int|
            0 <= k1 < k2 < devices@.len() && device_matches_dfu(devices@[k1]) && device_matches_dfu(
                devices@[k2],
            ),
        r is Err ==> (r == Err::<usize, Error>(Error::NotFound) || r == Err::<usize, Error>(
            Error::AmbiguousMatch,
        )),
{
    let mut found: Option<usize> = None;
    let mut idx: usize = 0;
    while idx < devices.len()
        invariant
            idx <= devices@.len(),
            found matches Some(i) ==> i < idx && device_matches_dfu(devices@[i as int]) && forall|
                k: int,
            | 0 <= k < idx && k != i ==> !device_matches_dfu(devices@[k]),
            found is None ==> forall|k: int| 0 <= k < idx ==> !device_matches_dfu(devices@[k]),
        decreases devices@.len() - idx,
    {
        if matches_dfu_table(&devices[idx]) {
            match found {
                Some(first) => {
                    assert(device_matches_dfu(devices@[first as int]) && device_matches_dfu(
                        devices@[idx as int],
                    ) && first < idx);
                    return Err(Error::AmbiguousMatch);
                },
                None => {
                    found = Some(idx);
                },
            }
        }
        idx += 1;
    }
    match found {
        Some(i) => Ok(i),
        None => Err(Error::NotFound),
    }
}

/// Pick the application-mode table row for a matched device, giving the
/// caller the endpoint addresses and interface number to verify and claim.
pub fn find_usb_entry(d: &AttachedDevice) -> (r: Option<UsbDeviceMatch>)
    ensures
        (r matches Some(e) ==> exists|j: int|
            0 <= j < usb_match_table().len() && usb_match_table()[j] == e && e.vid == d.vid
                && e.pid == d.pid),
        r is None <==> !device_matches_usb(*d),
{
    if d.vid == 0x0451 && d.pid == 0xbef3 {
        let e = UsbDeviceMatch { vid: 0x0451, pid: 0xbef3, epin: 0x83, epout: 0x02, interface_number: 2 };
        proof {
            assert(usb_match_table()[0] == e);
            assert(device_matches_usb(*d)) by {
                assert(usb_match_table()[0].vid == 0x0451);
            }
        }
        Some(e)
    } else if d.vid == 0x0451 && d.pid == 0xbef4 {
        let e = UsbDeviceMatch { vid: 0x0451, pid: 0xbef4, epin: 0x83, epout: 0x02, interface_number: 2 };
        proof {
            assert(usb_match_table()[1] == e);
            assert(device_matches_usb(*d)) by {
                assert(usb_match_table()[1].vid == 0x0451);
            }
        }
        Some(e)
    } else if d.vid == 0x1cbe && d.pid == 0x02a5 {
        let e = UsbDeviceMatch { vid: 0x1cbe, pid: 0x02a5, epin: 0x81, epout: 0x01, interface_number: 0 };
        proof {
            assert(usb_match_table()[2] == e);
            assert(device_matches_usb(*d)) by {
                assert(usb_match_table()[2].vid == 0x1cbe);
            }
        }
        Some(e)
    } else {
        proof {
            if device_matches_usb(*d) {
                let j = choose|j: int|
                    0 <= j < usb_match_table().len() && d.vid == usb_match_table()[j].vid && d.pid
                        == usb_match_table()[j].pid;
                assert(j == 0 || j == 1 || j == 2);
            }
        }
        None
    }
}

/// Both expected bulk endpoint addresses must be present among an
/// interface's endpoints before the interface is claimed.
pub fn endpoints_present(addresses: &Vec<u8>, epin: u8, epout: u8) -> (ok: bool)
    ensures
        ok == (addresses@.contains(epin) && addresses@.contains(epout)),
{
    let mut in_found: bool = false;
    let mut out_found: bool = false;
    let mut idx: usize = 0;
    while idx < addresses.len()
        invariant
            idx <= addresses@.len(),
            in_found == exists|k: int| 0 <= k < idx && addresses@[k] == epin,
            out_found == exists|k: int| 0 <= k < idx && addresses@[k] == epout,
        decreases addresses@.len() - idx,
    {
        let a = addresses[idx];
        if a == epin {
            in_found = true;
        }
        if a == epout {
            out_found = true;
        }
        idx += 1;
    }
    in_found && out_found
}

} // verus!
