//! Fixed device identity values used when testing the mailbox.
use vstd::prelude::*;

verus! {

/// The PCI-style identity of a device.
#[derive(Debug, Clone, Copy, PartialEq, Eq, Structural)]
pub struct TestDeviceId {
    pub vendor_id: u16,
    pub device_id: u16,
    pub subsystem_vendor_id: u16,
    pub subsystem_id: u16,
}

impl Default for TestDeviceId {
    fn default() -> (r: Self)
        ensures
            r == (TestDeviceId { vendor_id: 0, device_id: 0, subsystem_vendor_id: 0, subsystem_id: 0 }),
    {
        TestDeviceId { vendor_id: 0, device_id: 0, subsystem_vendor_id: 0, subsystem_id: 0 }
    }
}

/// The device identity used in tests.
pub fn test_device_id() -> (r: TestDeviceId)
    ensures
        r == (TestDeviceId {
            vendor_id: 0x1414,
            device_id: 0x0010,
            subsystem_vendor_id: 0x0001,
            subsystem_id: 0x0002,
        }),
{
    TestDeviceId { vendor_id: 0x1414, device_id: 0x0010, subsystem_vendor_id: 0x0001, subsystem_id: 0x0002 }
}

/// The versions of the firmware parts of a device.
#[derive(Debug, Clone, Copy, PartialEq, Eq)]
pub struct TestDeviceCapabilities {
    pub caliptra_rt: [u8; 8],
    pub caliptra_fmc: [u8; 4],
    pub caliptra_rom: [u8; 4],
    pub mcu_rt: [u8; 8],
    pub mcu_rom: [u8; 4],
    pub reserved: [u8; 4],
}

impl Default for TestDeviceCapabilities {
    fn default() -> (r: Self)
        ensures
            r.caliptra_rt@ == seq![0u8, 0, 0, 0, 0, 0, 0, 0],
            r.caliptra_fmc@ == seq![0u8, 0, 0, 0],
            r.caliptra_rom@ == seq![0u8, 0, 0, 0],
            r.mcu_rt@ == seq![0u8, 0, 0, 0, 0, 0, 0, 0],
            r.mcu_rom@ == seq![0u8, 0, 0, 0],
            r.reserved@ == seq![0u8, 0, 0, 0],
    {
        let r = TestDeviceCapabilities {
            caliptra_rt: [0, 0, 0, 0, 0, 0, 0, 0],
            caliptra_fmc: [0, 0, 0, 0],
            caliptra_rom: [0, 0, 0, 0],
            mcu_rt: [0, 0, 0, 0, 0, 0, 0, 0],
            mcu_rom: [0, 0, 0, 0],
            reserved: [0, 0, 0, 0],
        };
        assert(r.caliptra_rt@ =~= seq![0u8, 0, 0, 0, 0, 0, 0, 0]);
        assert(r.caliptra_fmc@ =~= seq![0u8, 0, 0, 0]);
        assert(r.caliptra_rom@ =~= seq![0u8, 0, 0, 0]);
        assert(r.mcu_rt@ =~= seq![0u8, 0, 0, 0, 0, 0, 0, 0]);
        assert(r.mcu_rom@ =~= seq![0u8, 0, 0, 0]);
        assert(r.reserved@ =~= seq![0u8, 0, 0, 0]);
        r
    }
}

/// The device capabilities used in tests.
pub fn test_device_capabilities() -> (r: TestDeviceCapabilities)
    ensures
        r.caliptra_rt@ == seq![0x01u8, 0x02, 0x03, 0x04, 0x05, 0x06, 0x07, 0x08],
        r.caliptra_fmc@ == seq![0x09u8, 0x0A, 0x0B, 0x0C],
        r.caliptra_rom@ == seq![0x0Du8, 0x0E, 0x0F, 0x10],
        r.mcu_rt@ == seq![0x11u8, 0x12, 0x13, 0x14, 0x15, 0x16, 0x17, 0x18],
        r.mcu_rom@ == seq![0x19u8, 0x1A, 0x1B, 0x1C],
        r.reserved@ == seq![0u8, 0, 0, 0],
{
    let r = TestDeviceCapabilities {
        caliptra_rt: [0x01, 0x02, 0x03, 0x04, 0x05, 0x06, 0x07, 0x08],
        caliptra_fmc: [0x09, 0x0A, 0x0B, 0x0C],
        caliptra_rom: [0x0D, 0x0E, 0x0F, 0x10],
        mcu_rt: [0x11, 0x12, 0x13, 0x14, 0x15, 0x16, 0x17, 0x18],
        mcu_rom: [0x19, 0x1A, 0x1B, 0x1C],
        reserved: [0x00, 0x00, 0x00, 0x00],
    };
    assert(r.caliptra_rt@ =~= seq![0x01u8, 0x02, 0x03, 0x04, 0x05, 0x06, 0x07, 0x08]);
    assert(r.caliptra_fmc@ =~= seq![0x09u8, 0x0A, 0x0B, 0x0C]);
    assert(r.caliptra_rom@ =~= seq![0x0Du8, 0x0E, 0x0F, 0x10]);
    assert(r.mcu_rt@ =~= seq![0x11u8, 0x12, 0x13, 0x14, 0x15, 0x16, 0x17, 0x18]);
    assert(r.mcu_rom@ =~= seq![0x19u8, 0x1A, 0x1B, 0x1C]);
    assert(r.reserved@ =~= seq![0u8, 0, 0, 0]);
    r
}

} // verus!
