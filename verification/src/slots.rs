//! The adapter's four calibration slots and the processing of one raw
//! report against them: connection tracking, lazy baselining, and
//! correction, one slot per channel.

use vstd::prelude::*;
use crate::calibration::Calibration;
use crate::input::{spec_connected, spec_decode, Input, PAYLOAD_SIZE};
use crate::port::Port;

verus! {

/// A slot's state after one report: cleared when the port reports
/// disconnected, kept when a baseline exists, freshly baselined from
/// this report's sample otherwise.
pub open spec fn spec_slot_after(
    slot: Option<Calibration>,
    payload: Seq<u8>,
    chan: int,
) -> Option<Calibration> {
    if !spec_connected(payload, chan) {
        None
    } else {
        match slot {
            Some(c) => Some(c),
            None => Some(Calibration::spec_new(spec_decode(payload, chan))),
        }
    }
}

/// What one report yields for a channel: nothing when disconnected,
/// otherwise the decoded sample corrected by the slot's calibration
/// after this report.
pub open spec fn spec_port_input(
    slot: Option<Calibration>,
    payload: Seq<u8>,
    chan: int,
) -> Option<Input> {
    if !spec_connected(payload, chan) {
        None
    } else {
        match spec_slot_after(slot, payload, chan) {
            Some(c) => Some(c.spec_correct(spec_decode(payload, chan))),
            None => None,
        }
    }
}

/// All four slots after one report.
pub open spec fn spec_slots_after(
    slots: Seq<Option<Calibration>>,
    payload: Seq<u8>,
) -> Seq<Option<Calibration>> {
    Seq::new(4, |i: int| spec_slot_after(slots[i], payload, i))
}

/// All four channels' yields for one report.
pub open spec fn spec_inputs(
    slots: Seq<Option<Calibration>>,
    payload: Seq<u8>,
) -> Seq<Option<Input>> {
    Seq::new(4, |i: int| spec_port_input(slots[i], payload, i))
}

/// The four per-port calibration slots.  A slot is `Some` exactly while
/// its port reports connected; the calibration is computed once, from
/// the first sample after connection, and dropped on disconnection.
pub struct CalibrationSlots {
    slots: [Option<Calibration>; 4],
}

impl View for CalibrationSlots {
    type V = Seq<Option<Calibration>>;

    closed spec fn view(&self) -> Seq<Option<Calibration>> {
        self.slots@
    }
}

impl CalibrationSlots {
    /// Every stored calibration is a possible baseline.
    pub open spec fn wf(self) -> bool {
        &&& self@.len() == 4
        &&& forall|i: int|
            0 <= i < 4 ==> ((#[trigger] self@[i]) matches Some(c) ==> c.wf())
    }

    /// Four empty slots: no port has a controller yet.
    pub fn new() -> (r: CalibrationSlots)
        ensures
            r.wf(),
            forall|i: int| 0 <= i < 4 ==> (#[trigger] r@[i]) is None,
    {
        let r = CalibrationSlots { slots: [None, None, None, None] };
        proof {
            assert(forall|i: int| 0 <= i < 4 ==> (#[trigger] r@[i]) is None) by {
                assert(r@[0] is None);
                assert(r@[1] is None);
                assert(r@[2] is None);
                assert(r@[3] is None);
            }
        }
        r
    }

    /// Runs one raw report through all four channels: clears the slot of
    /// every disconnected port, baselines a newly connected one from
    /// this very report, and yields each connected port's corrected
    /// state.
    pub fn process(&mut self, payload: &[u8; PAYLOAD_SIZE]) -> (inputs: [Option<Input>; 4])
        requires
            old(self).wf(),
        ensures
            final(self).wf(),
            final(self)@ == spec_slots_after(old(self)@, payload@),
            inputs@ == spec_inputs(old(self)@, payload@),
    {
        let mut inputs: [Option<Input>; 4] = [None, None, None, None];
        let ports = Port::all();
        let mut i: usize = 0;
        while i < 4
            invariant
                i <= 4,
                self@.len() == 4,
                inputs@.len() == 4,
                forall|j: int| 0 <= j < 4 ==> (#[trigger] ports@[j]).spec_channel() == j,
                forall|j: int| i <= j < 4 ==> self@[j] == old(self)@[j],
                forall|j: int|
                    0 <= j < i ==> self@[j] == spec_slot_after(old(self)@[j], payload@, j),
                forall|j: int|
                    0 <= j < i ==> inputs@[j] == spec_port_input(old(self)@[j], payload@, j),
                forall|j: int| i <= j < 4 ==> (#[trigger] inputs@[j]) is None,
                self.wf(),
            decreases 4 - i,
        {
            let base: usize = 1 + 9 * i;
            let status = payload[base];
            let connected = (status >> 4) != 0;

            if !connected {
                self.slots[i] = None;
            } else {
                let raw = Input::parse(payload, ports[i]);
                if self.slots[i].is_none() {
                    self.slots[i] = Some(Calibration::new(&raw));
                }
                let cal = self.slots[i].unwrap();
                inputs[i] = Some(cal.correct(raw));
            }

            i = i + 1;
        }
        proof {
            assert(self@ =~= spec_slots_after(old(self)@, payload@));
            assert(inputs@ =~= spec_inputs(old(self)@, payload@));
        }
        inputs
    }
}

/// Polling an unchanged raw report a second time changes nothing for a
/// connected port: the calibration slot stays as the first poll left it
/// and both polls yield the identical corrected input.
pub proof fn lemma_repeated_report_stable(
    slot: Option<Calibration>,
    payload: Seq<u8>,
    chan: int,
)
    requires
        0 <= chan < 4,
        payload.len() == PAYLOAD_SIZE,
        spec_connected(payload, chan),
    ensures
        spec_slot_after(spec_slot_after(slot, payload, chan), payload, chan) == spec_slot_after(
            slot,
            payload,
            chan,
        ),
        spec_port_input(spec_slot_after(slot, payload, chan), payload, chan) == spec_port_input(
            slot,
            payload,
            chan,
        ),
{
}

/// A report that shows the port disconnected clears its slot, and the
/// next report that shows it connected re-baselines from that report's
/// own sample — whatever calibration was stored before.
pub proof fn lemma_reconnect_rebaselines(
    slot: Option<Calibration>,
    gone: Seq<u8>,
    back: Seq<u8>,
    chan: int,
)
    requires
        0 <= chan < 4,
        gone.len() == PAYLOAD_SIZE,
        back.len() == PAYLOAD_SIZE,
        !spec_connected(gone, chan),
        spec_connected(back, chan),
    ensures
        spec_slot_after(slot, gone, chan) is None,
        spec_slot_after(spec_slot_after(slot, gone, chan), back, chan) == Some(
            Calibration::spec_new(spec_decode(back, chan)),
        ),
{
}

} // verus!
