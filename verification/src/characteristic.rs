//! Notifications of a characteristic.

use vstd::prelude::*;

verus! {

/// The value of a notification, where it came from the characteristic with UUID `uuid`;
/// nothing where it came from another characteristic.
pub fn notification_value(notified: u128, value: Vec<u8>, uuid: u128) -> (r: Option<Vec<u8>>)
    ensures
        r == (if notified == uuid {
            Some(value)
        } else {
            None
        }),
{
    if notified == uuid {
        Some(value)
    } else {
        None
    }
}

} // verus!
