//! Selection of the USB devices that a bus reset applies to.
//!
//! A reset recovers a camera that the driver can no longer talk to. It works
//! beneath the driver's own bookkeeping, so a session of a reset camera must
//! be discarded and created anew. The host enumerates the bus, hands the
//! devices' ids here, resets each selected device in turn, attempting every
//! one, and reports the first failure through [`first_error`].

use vstd::prelude::*;

verus! {

/// The USB vendor id of ZWO, the maker of ASI cameras.
pub const ZWO_VENDOR_ID: u16 = 0x03c3;

/// The ids that a USB device descriptor reports.
#[derive(Debug, Clone, Copy, PartialEq, Eq, Structural)]
pub struct UsbDeviceId {
    pub vendor_id: u16,
    pub product_id: u16,
}

/// A device is selected when its vendor id is `vendor_id` and, if a product
/// id is given, its product id is that one.
pub open spec fn selected(d: UsbDeviceId, vendor_id: u16, product_id: Option<u16>) -> bool {
    &&& d.vendor_id == vendor_id
    &&& (product_id matches Some(p) ==> d.product_id == p)
}

/// The positions, in order, of the selected devices among the first `n`.
pub open spec fn selected_positions(
    devices: Seq<UsbDeviceId>,
    vendor_id: u16,
    product_id: Option<u16>,
    n: int,
) -> Seq<int>
    decreases n,
{
    if n <= 0 {
        seq![]
    } else {
        let before = selected_positions(devices, vendor_id, product_id, n - 1);
        if selected(devices[n - 1], vendor_id, product_id) {
            before.push(n - 1)
        } else {
            before
        }
    }
}

/// Whether the device with ids `d` is to be reset.
pub fn device_matches(d: &UsbDeviceId, vendor_id: u16, product_id: Option<u16>) -> (r: bool)
    ensures
        r == selected(*d, vendor_id, product_id),
{
    if d.vendor_id != vendor_id {
        return false;
    }
    match product_id {
        Some(p) => d.product_id == p,
        None => true,
    }
}

/// The positions in `devices` of the devices to reset, in order: those of
/// vendor `vendor_id` and, if given, of product `product_id`.
pub fn reset_plan(devices: &Vec<UsbDeviceId>, vendor_id: u16, product_id: Option<u16>) -> (r: Vec<
    usize,
>)
    ensures
        r@.map_values(|i: usize| i as int) == selected_positions(
            devices@,
            vendor_id,
            product_id,
            devices@.len() as int,
        ),
{
    let mut r: Vec<usize> = Vec::new();
    let mut i: usize = 0;
    while i < devices.len()
        invariant
            i <= devices.len(),
            r@.map_values(|i: usize| i as int) == selected_positions(
                devices@,
                vendor_id,
                product_id,
                i as int,
            ),
        decreases devices.len() - i,
    {
        if device_matches(&devices[i], vendor_id, product_id) {
            r.push(i);
        }
        i = i + 1;
        assert(r@.map_values(|i: usize| i as int) =~= selected_positions(
            devices@,
            vendor_id,
            product_id,
            i as int,
        ));
    }
    r
}

/// The positions in `devices` of the ZWO devices, every product: what a
/// reset of all ASI cameras resets.
pub fn reset_asi_cameras(devices: &Vec<UsbDeviceId>) -> (r: Vec<usize>)
    ensures
        r@.map_values(|i: usize| i as int) == selected_positions(
            devices@,
            ZWO_VENDOR_ID,
            None,
            devices@.len() as int,
        ),
{
    reset_plan(devices, ZWO_VENDOR_ID, None)
}

/// The outcome of resetting several devices, each attempted: the first
/// failure, or success when every reset succeeded.
pub fn first_error<E>(results: Vec<Result<(), E>>) -> (r: Result<(), E>)
    ensures
        r is Ok <==> forall|i: int| 0 <= i < results@.len() ==> results@[i] is Ok,
        r is Err ==> exists|i: int|
            0 <= i < results@.len() && results@[i] == r && forall|j: int|
                0 <= j < i ==> results@[j] is Ok,
{
    let mut i: usize = 0;
    while i < results.len()
        invariant
            i <= results.len(),
            forall|j: int| 0 <= j < i ==> results@[j] is Ok,
        decreases results.len() - i,
    {
        if results[i].is_err() {
            let mut rest = results;
            let e = rest.remove(i);
            return e;
        }
        i = i + 1;
    }
    Ok(())
}

/// When no device is selected, a reset touches none.
pub proof fn no_selected_device_no_reset(
    devices: Seq<UsbDeviceId>,
    vendor_id: u16,
    product_id: Option<u16>,
    n: int,
)
    requires
        n <= devices.len(),
        forall|i: int| 0 <= i < devices.len() ==> !selected(devices[i], vendor_id, product_id),
    ensures
        selected_positions(devices, vendor_id, product_id, n) == Seq::<int>::empty(),
    decreases n,
{
    if n > 0 {
        no_selected_device_no_reset(devices, vendor_id, product_id, n - 1);
    }
}

} // verus!
