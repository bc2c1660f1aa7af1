//! The adapter: USB lifecycle, endpoint discovery, and the blocking
//! read path that turns one raw report into four calibrated inputs.

use vstd::prelude::*;
use crate::calibration::Calibration;
use crate::input::{Input, PAYLOAD_SIZE, REPORT_TAG};
use crate::rumble::Rumbler;
use crate::slots::{spec_inputs, spec_slots_after, CalibrationSlots};
use crate::usb::{self, UsbHandle, ALLOWED_TIMEOUT_MS};

verus! {

/// Vendor id of the controller adapter.
pub const GC_VID: u16 = 0x057E;

/// Product id of the controller adapter.
pub const GC_PID: u16 = 0x0337;

/// Address bit that marks an endpoint as an IN (device-to-host)
/// endpoint.
pub const ENDPOINT_DIR_IN: u8 = 0x80;

/// Everything the driver can fail with: a wrapped USB transport error,
/// no matching adapter on the bus, or a report that does not match the
/// fixed shape.
#[derive(Debug)]
pub enum DriverError {
    Rusb(rusb::Error),
    Adapter,
    Payload,
}

/// Whether an endpoint address names an IN endpoint.
pub open spec fn spec_is_in(address: u8) -> bool {
    address & ENDPOINT_DIR_IN != 0
}

/// The IN and OUT endpoint addresses a descriptor listing selects:
/// per direction, the last endpoint seen wins; a direction never seen
/// stays zero.
pub open spec fn spec_select_endpoints(addresses: Seq<u8>) -> (u8, u8)
    decreases addresses.len(),
{
    if addresses.len() == 0 {
        (0u8, 0u8)
    } else {
        let prev = spec_select_endpoints(addresses.drop_last());
        let a = addresses.last();
        if spec_is_in(a) {
            (a, prev.1)
        } else {
            (prev.0, a)
        }
    }
}

/// Scans a configuration's endpoint addresses; per direction the last
/// endpoint listed wins.
fn select_endpoints(addresses: &Vec<u8>) -> (r: (u8, u8))
    ensures
        r == spec_select_endpoints(addresses@),
{
    let mut endpoint_in: u8 = 0;
    let mut endpoint_out: u8 = 0;
    let mut i: usize = 0;
    while i < addresses.len()
        invariant
            i <= addresses@.len(),
            (endpoint_in, endpoint_out) == spec_select_endpoints(addresses@.take(i as int)),
        decreases addresses@.len() - i,
    {
        let a = addresses[i];
        if a & ENDPOINT_DIR_IN != 0 {
            endpoint_in = a;
        } else {
            endpoint_out = a;
        }
        i = i + 1;
        proof {
            assert(addresses@.take(i as int).drop_last() =~= addresses@.take(i - 1));
            assert(addresses@.take(i as int).last() == a);
        }
    }
    proof {
        assert(addresses@.take(addresses@.len() as int) =~= addresses@);
    }
    (endpoint_in, endpoint_out)
}

/// The opened adapter: the shared USB handle, the discovered endpoint
/// pair, and one calibration slot per port.
pub struct Adapter {
    handle: UsbHandle,
    endpoint_in: u8,
    endpoint_out: u8,
    calibrations: CalibrationSlots,
}

impl Adapter {
    /// The four calibration slots, in channel order.
    pub closed spec fn slots(self) -> Seq<Option<Calibration>> {
        self.calibrations@
    }

    pub closed spec fn spec_handle(self) -> UsbHandle {
        self.handle
    }

    pub closed spec fn spec_endpoint_in(self) -> u8 {
        self.endpoint_in
    }

    pub closed spec fn spec_endpoint_out(self) -> u8 {
        self.endpoint_out
    }

    /// Four slots, every stored calibration a possible baseline.
    pub open spec fn wf(self) -> bool {
        &&& self.slots().len() == 4
        &&& forall|i: int|
            0 <= i < 4 ==> ((#[trigger] self.slots()[i]) matches Some(c) ==> c.wf())
    }

    /// Opens the adapter: finds the device by vendor/product id, claims
    /// its interface, discovers the endpoint pair, runs the two vendor
    /// wake-up writes (the control transfer may fail and is ignored;
    /// the wake byte must go through), and zeroes all four rumble
    /// motors.  Fails with `DriverError::Adapter` when no device matches and
    /// with `DriverError::Rusb` when any required USB call fails; on failure
    /// no adapter value exists at all.
    pub fn open() -> (r: Result<Adapter, DriverError>)
        ensures
            r matches Ok(a) ==> {
                &&& a.wf()
                &&& forall|i: int| 0 <= i < 4 ==> (#[trigger] a.slots()[i]) is None
            },
            r matches Err(e) ==> (e matches DriverError::Adapter || e matches DriverError::Rusb(
                _,
            )),
    {
        let handle = match usb::open_device(GC_VID, GC_PID) {
            Some(h) => h,
            None => {
                return Err(DriverError::Adapter);
            },
        };

        match usb::claim_interface(&handle, 0) {
            Ok(()) => (),
            Err(e) => {
                return Err(DriverError::Rusb(e));
            },
        }

        let addresses = match usb::endpoint_addresses(&handle) {
            Ok(v) => v,
            Err(e) => {
                return Err(DriverError::Rusb(e));
            },
        };
        let (endpoint_in, endpoint_out) = select_endpoints(&addresses);

        // Some adapter models need this request; others reject it
        // harmlessly, so the outcome is ignored.
        let _ = usb::write_control_empty(&handle, 0x21, 11, 0x0001, 0, 1000);

        // The wake byte, which every model must accept.
        let wake: [u8; 1] = [0x13];
        match usb::write_interrupt(&handle, endpoint_out, &wake, ALLOWED_TIMEOUT_MS) {
            Ok(_) => (),
            Err(e) => {
                return Err(DriverError::Rusb(e));
            },
        }

        let adapter = Adapter {
            handle,
            endpoint_in,
            endpoint_out,
            calibrations: CalibrationSlots::new(),
        };

        match adapter.make_rumbler().reset_rumble() {
            Ok(()) => (),
            Err(e) => {
                return Err(e);
            },
        }

        Ok(adapter)
    }

    /// Accepts a transfer's outcome only when it matches the fixed
    /// report shape: exactly `PAYLOAD_SIZE` bytes read and the leading
    /// type byte equal to `REPORT_TAG`; anything else is
    /// `DriverError::Payload`.
    pub fn check_payload(bytes_read: usize, payload: [u8; PAYLOAD_SIZE]) -> (r: Result<
        [u8; PAYLOAD_SIZE],
        DriverError,
    >)
        ensures
            r is Ok <==> (bytes_read == PAYLOAD_SIZE && payload@[0] == REPORT_TAG),
            r matches Ok(p) ==> p == payload,
            r is Err ==> r matches Err(DriverError::Payload),
    {
        if bytes_read != PAYLOAD_SIZE || payload[0] != REPORT_TAG {
            Err(DriverError::Payload)
        } else {
            Ok(payload)
        }
    }

    /// One interrupt-IN transfer, validated against the report shape.
    fn read_payload(&self) -> (r: Result<[u8; PAYLOAD_SIZE], DriverError>)
        ensures
            r matches Ok(p) ==> p@[0] == REPORT_TAG,
            r matches Err(e) ==> (e matches DriverError::Rusb(_) || e matches DriverError::Payload),
    {
        let mut payload: [u8; PAYLOAD_SIZE] = [0; PAYLOAD_SIZE];

        let bytes_read = match usb::read_interrupt(
            &self.handle,
            self.endpoint_in,
            &mut payload,
            ALLOWED_TIMEOUT_MS,
        ) {
            Ok(n) => n,
            Err(e) => {
                return Err(DriverError::Rusb(e));
            },
        };

        Self::check_payload(bytes_read, payload)
    }

    /// Blocking read of one report: on success, each connected port's
    /// decoded, freshly-or-previously calibrated and corrected state;
    /// `None` for each disconnected port, whose slot is cleared.  On any
    /// error — transport failure or malformed report — the adapter,
    /// calibration slots included, is exactly as before.
    pub fn read_inputs(&mut self) -> (r: Result<[Option<Input>; 4], DriverError>)
        requires
            old(self).wf(),
        ensures
            final(self).wf(),
            final(self).spec_handle() == old(self).spec_handle(),
            final(self).spec_endpoint_in() == old(self).spec_endpoint_in(),
            final(self).spec_endpoint_out() == old(self).spec_endpoint_out(),
            r is Err ==> *final(self) == *old(self),
            r matches Err(e) ==> (e matches DriverError::Rusb(_) || e matches DriverError::Payload),
            r matches Ok(inputs) ==> exists|p: Seq<u8>|
                {
                    &&& p.len() == PAYLOAD_SIZE
                    &&& p[0] == REPORT_TAG
                    &&& final(self).slots() == #[trigger] spec_slots_after(old(self).slots(), p)
                    &&& inputs@ == spec_inputs(old(self).slots(), p)
                },
    {
        let payload = match self.read_payload() {
            Ok(p) => p,
            Err(e) => {
                return Err(e);
            },
        };

        let inputs = self.calibrations.process(&payload);

        Ok(inputs)
    }

    /// A new rumbler sharing this adapter's device handle and OUT
    /// endpoint; cheap and side-effect free.
    pub fn make_rumbler(&self) -> (r: Rumbler)
        ensures
            r.spec_handle() == self.spec_handle(),
            r.spec_endpoint_out() == self.spec_endpoint_out(),
    {
        Rumbler::new(usb::share_handle(&self.handle), self.endpoint_out)
    }
}

} // verus!
