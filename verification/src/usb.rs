//! Trusted boundary to the USB transport: a shared, opaque device
//! handle and one wrapper per transport call the driver makes.  Nothing
//! here is verified; each contract states only what `rusb`'s source and
//! documentation show.

use vstd::prelude::*;
use std::sync::Arc;

verus! {

/// Deadline of one interrupt transfer, matched to display refresh.
pub const ALLOWED_TIMEOUT_MS: u64 = 16;

#[verifier::external_type_specification]
#[verifier::external_body]
pub struct ExRusbError(rusb::Error);

/// Shared handle to the adapter's USB device, opaque to the verifier.
/// `rusb::DeviceHandle` cannot be declared directly (its context trait
/// bound cannot be), so the reference-counted handle is held inside
/// this trusted struct; the read path and every rumbler share it.
#[verifier::external_body]
pub struct UsbHandle {
    handle: Arc<rusb::DeviceHandle<rusb::GlobalContext>>,
}

/// Relies on rusb::open_device_with_vid_pid: a handle to the first
/// device matching the vendor/product pair, or `None` when enumeration
/// finds no match (or fails).  What comes back depends on the machine's
/// USB bus, so nothing is promised of it.  On a host without a usable
/// USB stack, rusb itself aborts while initializing its process-global
/// libusb context.
#[verifier::external_body]
pub(crate) fn open_device(vendor_id: u16, product_id: u16) -> Option<UsbHandle> {
    rusb::open_device_with_vid_pid(vendor_id, product_id)
        .map(|handle| UsbHandle { handle: Arc::new(handle) })
}

/// Relies on DeviceHandle::claim_interface: claims the interface,
/// `Err` on any USB failure.
#[verifier::external_body]
pub(crate) fn claim_interface(handle: &UsbHandle, iface: u8) -> Result<(), rusb::Error> {
    handle.handle.claim_interface(iface)
}

/// Relies on Device::config_descriptor and its descriptor iterators:
/// the address byte of every endpoint descriptor in the device's first
/// configuration, in the order the descriptors are listed.  The list is
/// the device's to choose, so nothing is promised of it.
#[verifier::external_body]
pub(crate) fn endpoint_addresses(handle: &UsbHandle) -> Result<Vec<u8>, rusb::Error> {
    let config = handle.handle.device().config_descriptor(0)?;
    let mut addresses = Vec::new();
    for interface in config.interfaces() {
        for descriptor in interface.descriptors() {
            for endpoint in descriptor.endpoint_descriptors() {
                addresses.push(endpoint.address());
            }
        }
    }
    Ok(addresses)
}

/// Relies on DeviceHandle::write_control with an empty data stage: the
/// device either accepts or rejects the request; no data moves either
/// way.  rusb documents anything under one millisecond as an unbounded
/// block, and narrows the count to 32 bits; such values are excluded.
#[verifier::external_body]
pub(crate) fn write_control_empty(
    handle: &UsbHandle,
    request_type: u8,
    request: u8,
    value: u16,
    index: u16,
    timeout_ms: u64,
) -> Result<usize, rusb::Error>
    requires
        1 <= timeout_ms < 4294967296,
{
    handle.handle.write_control(
        request_type,
        request,
        value,
        index,
        &[],
        std::time::Duration::from_millis(timeout_ms),
    )
}

/// Relies on DeviceHandle::write_interrupt: `Ok(n)` means the first `n`
/// bytes of `buf` were written to the endpoint; on `Err` none were.
/// rusb documents anything under one millisecond as an unbounded
/// block, and narrows the count to 32 bits; such values are excluded.
#[verifier::external_body]
pub(crate) fn write_interrupt<const N: usize>(
    handle: &UsbHandle,
    endpoint: u8,
    buf: &[u8; N],
    timeout_ms: u64,
) -> (r: Result<usize, rusb::Error>)
    requires
        1 <= timeout_ms < 4294967296,
    ensures
        r matches Ok(n) ==> n <= N,
{
    handle.handle.write_interrupt(endpoint, buf, std::time::Duration::from_millis(timeout_ms))
}

/// Relies on DeviceHandle::read_interrupt: `Ok(n)` means the first `n`
/// bytes of `buf` now hold data received from the endpoint; what they
/// hold is the device's to choose.  rusb documents anything under one
/// millisecond as an unbounded block, and narrows the count to 32
/// bits; such values are excluded.
#[verifier::external_body]
pub(crate) fn read_interrupt<const N: usize>(
    handle: &UsbHandle,
    endpoint: u8,
    buf: &mut [u8; N],
    timeout_ms: u64,
) -> (r: Result<usize, rusb::Error>)
    requires
        1 <= timeout_ms < 4294967296,
    ensures
        r matches Ok(n) ==> n <= N,
{
    handle.handle.read_interrupt(endpoint, buf, std::time::Duration::from_millis(timeout_ms))
}

/// Relies on Arc::clone: another owner of the very same device handle.
#[verifier::external_body]
pub(crate) fn share_handle(handle: &UsbHandle) -> (r: UsbHandle)
    ensures
        r == *handle,
{
    UsbHandle { handle: Arc::clone(&handle.handle) }
}

} // verus!
