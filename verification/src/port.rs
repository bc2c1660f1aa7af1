//! The four fixed controller channels of the adapter.

use vstd::prelude::*;

verus! {

/// One of the adapter's four controller slots.  Identity is positional:
/// a port names an index into the report and calibration arrays.
#[derive(Debug, Copy, Clone, PartialEq, Eq, Structural)]
pub enum Port {
    One,
    Two,
    Three,
    Four,
}

impl Port {
    /// The index this port occupies in the report and state arrays.
    pub open spec fn spec_channel(self) -> int {
        match self {
            Port::One => 0,
            Port::Two => 1,
            Port::Three => 2,
            Port::Four => 3,
        }
    }

    pub fn channel(self) -> (r: usize)
        ensures
            r == self.spec_channel(),
            r < 4,
    {
        match self {
            Port::One => 0,
            Port::Two => 1,
            Port::Three => 2,
            Port::Four => 3,
        }
    }

    /// The four ports, in channel order.
    pub fn all() -> (r: [Port; 4])
        ensures
            forall|i: int| 0 <= i < 4 ==> (#[trigger] r@[i]).spec_channel() == i,
    {
        let ports = [Port::One, Port::Two, Port::Three, Port::Four];
        proof {
            assert(forall|i: int| 0 <= i < 4 ==> (#[trigger] ports@[i]).spec_channel() == i) by {
                assert(ports@[0] == Port::One);
                assert(ports@[1] == Port::Two);
                assert(ports@[2] == Port::Three);
                assert(ports@[3] == Port::Four);
            }
        }
        ports
    }
}

} // verus!
