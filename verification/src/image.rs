use vstd::prelude::*;

verus! {

/// The persistent configuration block is always exactly 16 KiB.
pub const CONFIGURATION_SIZE: usize = 16384;

/// The two-byte sentinel at bytes 18..20 of a healthy image.
pub open spec fn magic_ok(s: Seq<u8>) -> bool {
    &&& s[18] == 0x55u8
    &&& s[19] == 0xaau8
}

/// The little-endian 16-bit operating-mode field at bytes 16..18.
pub open spec fn mode_of(s: Seq<u8>) -> int {
    s[16] + s[17] * 256
}

/// An image with a missing magic marker is repaired before any decision is
/// made: byte 17 is zeroed and the marker is force-written. A healthy image
/// is left untouched.
pub open spec fn repaired(s: Seq<u8>) -> Seq<u8> {
    if magic_ok(s) {
        s
    } else {
        s.update(17, 0u8).update(18, 0x55u8).update(19, 0xaau8)
    }
}

/// The operating-mode value that the reconfiguration drives the device to.
pub const TARGET_MODE: u16 = 4;

/// Whether the patched image must be written back, or the device already
/// runs in the target mode.
#[derive(Clone, Copy, PartialEq, Eq, Structural, Debug)]
pub enum ConfigDecision {
    AlreadyTarget,
    WriteNeeded,
}

/// True exactly when the image carries the `[0x55, 0xaa]` marker.
pub fn has_valid_magic(image: &Vec<u8>) -> (ok: bool)
    requires
        image@.len() == CONFIGURATION_SIZE,
    ensures
        ok == magic_ok(image@),
{
    image[18] == 0x55 && image[19] == 0xaa
}

/// The current operating mode, read little-endian from bytes 16..18.
pub fn current_mode(image: &Vec<u8>) -> (mode: u16)
    requires
        image@.len() == CONFIGURATION_SIZE,
    ensures
        mode == mode_of(image@),
{
    (image[16] as u16) + (image[17] as u16) * 256
}

/// The decide step of the workflow: repair a corrupted image (missing magic
/// marker), then either report that the device already runs in the target
/// mode, or set byte 16 to the target mode so the image can be written back.
///
/// For a healthy image with mode already equal to the target, the image is
/// returned byte-for-byte unchanged and no write is called for. For a
/// healthy image in any other mode, the result differs from the input only
/// in byte 16. For an image missing the marker, byte 17 is always zeroed and
/// bytes 18..20 are always forced to `[0x55, 0xaa]`, whatever the original
/// content.
pub fn decide_configuration(image: &mut Vec<u8>) -> (decision: ConfigDecision)
    requires
        old(image)@.len() == CONFIGURATION_SIZE,
    ensures
        final(image)@.len() == CONFIGURATION_SIZE,
        decision == ConfigDecision::AlreadyTarget <==> mode_of(repaired(old(image)@))
            == TARGET_MODE,
        decision == ConfigDecision::AlreadyTarget ==> final(image)@ == repaired(old(image)@),
        decision == ConfigDecision::WriteNeeded ==> final(image)@ == repaired(
            old(image)@,
        ).update(16, 4u8),
{
    if !has_valid_magic(image) {
        image.set(17, 0);
        image.set(18, 0x55);
        image.set(19, 0xaa);
    }
    let mode = current_mode(image);
    if mode == TARGET_MODE {
        ConfigDecision::AlreadyTarget
    } else {
        image.set(16, 4);
        ConfigDecision::WriteNeeded
    }
}

} // verus!
