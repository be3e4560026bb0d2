//! The real-time clock, armed to raise its periodic interrupt.

use vstd::prelude::*;
use crate::irq::{HandlerKind, InterruptLookup, IrqId};
use crate::port::{Port, PortManager};

verus! {

/// Register index port of the CMOS real-time clock.
pub const RTC_INDEX: u16 = 0x70;
/// Data port of the CMOS real-time clock.
pub const RTC_DATA: u16 = 0x71;

/// The real-time clock.
pub struct Rtc {
    index: Port,
    data: Port,
}

impl Rtc {
    /// The ports the driver was built on.
    pub closed spec fn ports(&self) -> Seq<u16> {
        seq![self.index@, self.data@]
    }

    /// Takes the clock's ports and installs its handler on line 0 of the
    /// secondary controller.
    pub fn enable_irq(ports: &mut PortManager, lookup: &mut InterruptLookup) -> (r: Self)
        requires
            !old(ports)@.contains(RTC_INDEX),
            !old(ports)@.contains(RTC_DATA),
        ensures
            r.ports() == seq![RTC_INDEX, RTC_DATA],
            final(ports)@ == old(ports)@.insert(RTC_INDEX).insert(RTC_DATA),
            final(lookup)@ == old(lookup)@.push((IrqId::Pic2(0), HandlerKind::Clock)),
    {
        let index = ports.claim(RTC_INDEX);
        let data = ports.claim(RTC_DATA);
        lookup.register_handler(IrqId::Pic2(0), HandlerKind::Clock);
        Rtc { index, data }
    }
}

} // verus!
