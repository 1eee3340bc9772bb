//! Standard Bluetooth identifiers.

pub mod characteristics;

use vstd::prelude::*;

verus! {

/// The Bluetooth base UUID `00000000-0000-1000-8000-00805F9B34FB` as a 128-bit value.
pub const BLUETOOTH_BASE_UUID: u128 = 0x00000000_0000_1000_8000_00805f9b34fb;

/// The full 128-bit UUID of a 16-bit short BLE UUID: the short value takes the place of
/// bits 96 to 111 of the Bluetooth base UUID.
pub open spec fn ble_uuid(short: u16) -> int {
    BLUETOOTH_BASE_UUID + short * 0x1_0000_0000_0000_0000_0000_0000int
}

/// A full UUID made from a short one keeps every bit of the base UUID below bit 96 and
/// holds the short value in bits 96 to 111 (and nothing above), so the short value can be
/// read back, and different short values give different UUIDs.
pub proof fn law_ble_uuid(short: u16, other: u16)
    ensures
        ble_uuid(short) % 0x1_0000_0000_0000_0000_0000_0000int == BLUETOOTH_BASE_UUID,
        ble_uuid(short) / 0x1_0000_0000_0000_0000_0000_0000int == short,
        0 <= ble_uuid(short) < 0x1_0000_0000_0000_0000_0000_0000_0000int,
        short != other ==> ble_uuid(short) != ble_uuid(other),
{
    assert(BLUETOOTH_BASE_UUID < 0x1_0000_0000_0000_0000_0000_0000int);
}

/// Convert a 16-bit BLE short UUID to a full 128-bit UUID by filling in the standard
/// Bluetooth Base UUID.
pub fn uuid_from_u16(short: u16) -> (r: u128)
    ensures
        r == ble_uuid(short),
{
    let wide: u128 = short as u128;
    assert(BLUETOOTH_BASE_UUID | (wide << 96u128) == BLUETOOTH_BASE_UUID + wide
        * 0x1_0000_0000_0000_0000_0000_0000u128) by (bit_vector)
        requires
            wide < 0x10000,
    ;
    BLUETOOTH_BASE_UUID | (wide << 96u128)
}

} // verus!
