//! Hardware interrupt lines, the registry that maps them to handlers, and the
//! interrupt controller that routes them.

use vstd::prelude::*;
use crate::interrupt::Cpu;
use crate::port::{Port, PortManager};

verus! {

/// A line of the primary or of the secondary interrupt controller.
#[derive(Clone, Copy, Debug, PartialEq, Eq, Structural)]
pub enum IrqId {
    Pic1(u8),
    Pic2(u8),
}

/// The handlers that the kernel installs.
#[derive(Clone, Copy, Debug, PartialEq, Eq, Structural)]
pub enum HandlerKind {
    /// The programmable interval timer's tick, which needs no work.
    Timer,
    /// The real-time clock's periodic interrupt.
    Clock,
    /// A byte from the PS/2 keyboard.
    Keyboard,
}

/// The handler that the last registration for `irq` in `entries` installed.
pub open spec fn handler_in(entries: Seq<(IrqId, HandlerKind)>, irq: IrqId) -> Option<HandlerKind>
    decreases entries.len(),
{
    if entries.len() == 0 {
        None
    } else if entries.last().0 == irq {
        Some(entries.last().1)
    } else {
        handler_in(entries.drop_last(), irq)
    }
}

/// The table from interrupt lines to handlers. It is filled during
/// bootstrap, before interrupts are unmasked, and only read after that.
pub struct InterruptLookup {
    entries: Vec<(IrqId, HandlerKind)>,
}

impl InterruptLookup {
    /// The registrations, oldest first.
    pub closed spec fn view(&self) -> Seq<(IrqId, HandlerKind)> {
        self.entries@
    }

    /// The handler registered for `irq`, if any.
    pub open spec fn handler(&self, irq: IrqId) -> Option<HandlerKind> {
        handler_in(self@, irq)
    }

    /// An empty table.
    pub fn new() -> (r: Self)
        ensures
            r@ == Seq::<(IrqId, HandlerKind)>::empty(),
    {
        InterruptLookup { entries: Vec::new() }
    }

    /// Installs `handler` for `irq`, replacing an earlier one.
    pub fn register_handler(&mut self, irq: IrqId, handler: HandlerKind)
        ensures
            final(self)@ == old(self)@.push((irq, handler)),
            final(self).handler(irq) == Some(handler),
            forall|other: IrqId| other != irq ==> #[trigger] final(self).handler(other) == old(
                self,
            ).handler(other),
    {
        self.entries.push((irq, handler));
        assert(self@.drop_last() =~= old(self)@);
    }

    /// The handler registered for `irq`, if any.
    pub fn lookup(&self, irq: IrqId) -> (r: Option<HandlerKind>)
        ensures
            r == self.handler(irq),
    {
        let mut i: usize = self.entries.len();
        assert(self@.take(i as int) =~= self@);
        while i > 0
            invariant
                i <= self@.len(),
                handler_in(self@.take(i as int), irq) == self.handler(irq),
            decreases i,
        {
            assert(self@.take(i as int).drop_last() =~= self@.take(i - 1));
            let (line, kind) = self.entries[i - 1];
            if line == irq {
                return Some(kind);
            }
            i = i - 1;
        }
        None
    }

    /// The handler that runs when `irq` is raised on `cpu`: none while
    /// interrupts are masked, else the registered one.
    pub fn dispatch(&self, cpu: &Cpu, irq: IrqId) -> (r: Option<HandlerKind>)
        ensures
            r == deliver(*cpu, *self, irq),
    {
        if cpu.interrupts_enabled {
            self.lookup(irq)
        } else {
            None
        }
    }
}

/// What runs when `irq` is raised on `cpu` with `lookup` installed.
pub open spec fn deliver(cpu: Cpu, lookup: InterruptLookup, irq: IrqId) -> Option<HandlerKind> {
    if cpu.interrupts_enabled {
        lookup.handler(irq)
    } else {
        None
    }
}

/// Command port of the primary controller.
pub const PIC1_COMMAND: u16 = 0x20;
/// Data port of the primary controller.
pub const PIC1_DATA: u16 = 0x21;
/// Command port of the secondary controller.
pub const PIC2_COMMAND: u16 = 0xA0;
/// Data port of the secondary controller.
pub const PIC2_DATA: u16 = 0xA1;

/// The pair of chained interrupt controllers, remapped and unmasked.
pub struct Pic {
    ports: [Port; 4],
}

impl Pic {
    /// The ports the controllers were built on.
    pub closed spec fn ports(&self) -> Seq<u16> {
        self.ports@.map_values(|p: Port| p@)
    }

    /// Takes the controllers' four ports and brings them up.
    pub fn init(ports: &mut PortManager) -> (r: Self)
        requires
            !old(ports)@.contains(PIC1_COMMAND),
            !old(ports)@.contains(PIC1_DATA),
            !old(ports)@.contains(PIC2_COMMAND),
            !old(ports)@.contains(PIC2_DATA),
        ensures
            final(ports)@ == old(ports)@.insert(PIC1_COMMAND).insert(PIC1_DATA).insert(
                PIC2_COMMAND,
            ).insert(PIC2_DATA),
            r.ports() == seq![PIC1_COMMAND, PIC1_DATA, PIC2_COMMAND, PIC2_DATA],
    {
        let c1 = ports.claim(PIC1_COMMAND);
        let d1 = ports.claim(PIC1_DATA);
        let c2 = ports.claim(PIC2_COMMAND);
        let d2 = ports.claim(PIC2_DATA);
        let r = Pic { ports: [c1, d1, c2, d2] };
        assert(r.ports() =~= seq![PIC1_COMMAND, PIC1_DATA, PIC2_COMMAND, PIC2_DATA]);
        r
    }
}

} // verus!
