//! The processor's interrupt-enable flag and the scope guard that masks it.

use vstd::prelude::*;

verus! {

/// The processor state that bootstrap touches: the interrupt-enable flag of
/// the status word, and whether the descriptor tables are loaded.
#[derive(Clone, Copy, Debug, PartialEq, Eq, Structural)]
pub struct Cpu {
    /// Whether maskable interrupts are delivered.
    pub interrupts_enabled: bool,
    /// Whether the segment and interrupt descriptor tables are loaded.
    pub tables_loaded: bool,
}

impl Cpu {
    /// A processor as the loader hands it over: descriptor tables not yet
    /// loaded, and the interrupt-enable flag as given.
    pub fn new(interrupts_enabled: bool) -> (r: Self)
        ensures
            r.interrupts_enabled == interrupts_enabled,
            !r.tables_loaded,
    {
        Cpu { interrupts_enabled, tables_loaded: false }
    }

    /// Loads the descriptor tables; loading them again changes nothing.
    pub fn load_descriptor_tables(&mut self)
        ensures
            *final(self) == (Cpu { tables_loaded: true, ..*old(self) }),
    {
        self.tables_loaded = true;
    }

    /// Sets the interrupt-enable flag.
    pub fn enable_interrupts(&mut self)
        ensures
            *final(self) == (Cpu { interrupts_enabled: true, ..*old(self) }),
    {
        self.interrupts_enabled = true;
    }

    /// Clears the interrupt-enable flag.
    pub fn disable_interrupts(&mut self)
        ensures
            *final(self) == (Cpu { interrupts_enabled: false, ..*old(self) }),
    {
        self.interrupts_enabled = false;
    }
}

/// The interrupt-enable bit of the status word.
pub const INTERRUPT_FLAG: u32 = 1 << 9;

/// Whether the status word `flags`, as `pushf` reads it, has interrupts
/// enabled.
pub fn interrupts_enabled_in(flags: u32) -> (r: bool)
    ensures
        r == (flags & INTERRUPT_FLAG != 0),
{
    flags & INTERRUPT_FLAG != 0
}

/// A scope in which maskable interrupts are off. It remembers the flag as it
/// was on entry and puts exactly that value back on exit, so a section
/// entered with interrupts already masked leaves them masked.
pub struct InterruptGuard {
    saved: bool,
}

impl InterruptGuard {
    /// The interrupt-enable flag as it was when the section was entered.
    pub closed spec fn saved(&self) -> bool {
        self.saved
    }

    /// Enters a critical section: records the flag, then clears it.
    pub fn enter(cpu: &mut Cpu) -> (r: Self)
        ensures
            r.saved() == old(cpu).interrupts_enabled,
            *final(cpu) == entered(*old(cpu)),
    {
        let saved = cpu.interrupts_enabled;
        cpu.disable_interrupts();
        InterruptGuard { saved }
    }

    /// Leaves the critical section, restoring the recorded flag.
    pub fn exit(self, cpu: &mut Cpu)
        ensures
            *final(cpu) == left(*old(cpu), self.saved()),
    {
        cpu.interrupts_enabled = self.saved;
    }
}

/// The processor after a critical section is entered.
pub open spec fn entered(cpu: Cpu) -> Cpu {
    Cpu { interrupts_enabled: false, ..cpu }
}

/// The processor after a critical section that recorded `saved` is left.
pub open spec fn left(cpu: Cpu, saved: bool) -> Cpu {
    Cpu { interrupts_enabled: saved, ..cpu }
}

/// One step of a program with respect to critical sections.
#[derive(Clone, Copy, Debug, PartialEq, Eq, Structural)]
pub enum MaskEvent {
    Enter,
    Exit,
}

/// The flag and the stack of recorded flags after `events`, from `flag` and
/// `saved`; `None` where an exit has no open section to close. Only the
/// interrupt-enable flag takes part; the descriptor-table bit is held fixed.
pub open spec fn run_sections(flag: bool, saved: Seq<bool>, events: Seq<MaskEvent>) -> Option<
    (bool, Seq<bool>),
>
    decreases events.len(),
{
    if events.len() == 0 {
        Some((flag, saved))
    } else {
        match run_sections(flag, saved, events.drop_last()) {
            None => None,
            Some((f, st)) => match events.last() {
                MaskEvent::Enter => Some(
                    (entered(Cpu { interrupts_enabled: f, tables_loaded: true }).interrupts_enabled, st.push(f)),
                ),
                MaskEvent::Exit => if st.len() == 0 {
                    None
                } else {
                    Some(
                        (
                            left(Cpu { interrupts_enabled: f, tables_loaded: true }, st.last()).interrupts_enabled,
                            st.drop_last(),
                        ),
                    )
                },
            },
        }
    }
}

/// Open sections minus closed ones.
pub open spec fn depth(events: Seq<MaskEvent>) -> int
    decreases events.len(),
{
    if events.len() == 0 {
        0
    } else {
        depth(events.drop_last()) + match events.last() {
            MaskEvent::Enter => 1int,
            MaskEvent::Exit => -1int,
        }
    }
}

/// Every exit closes a section opened before it within `events`.
pub open spec fn well_nested(events: Seq<MaskEvent>) -> bool {
    forall|i: int| 0 <= i <= events.len() ==> #[trigger] depth(events.take(i)) >= 0
}

/// Every section opened in `events` is closed again.
pub open spec fn balanced(events: Seq<MaskEvent>) -> bool {
    well_nested(events) && depth(events) == 0
}

spec fn flag_at(flag: bool, d: int) -> bool {
    if d == 0 {
        flag
    } else {
        false
    }
}

spec fn pushed(flag: bool, d: int) -> Seq<bool> {
    Seq::new(d as nat, |i: int| flag_at(flag, i))
}

proof fn lemma_open_sections(flag: bool, saved: Seq<bool>, events: Seq<MaskEvent>)
    requires
        well_nested(events),
    ensures
        run_sections(flag, saved, events) == Some(
            (flag_at(flag, depth(events)), saved + pushed(flag, depth(events))),
        ),
    decreases events.len(),
{
    assert(events.take(events.len() as int) =~= events);
    if events.len() == 0 {
        assert(saved + pushed(flag, 0) =~= saved);
    } else {
        let p = events.drop_last();
        assert forall|i: int| 0 <= i <= p.len() implies #[trigger] depth(p.take(i)) >= 0 by {
            assert(p.take(i) =~= events.take(i));
        }
        lemma_open_sections(flag, saved, p);
        let d = depth(p);
        match events.last() {
            MaskEvent::Enter => {
                assert((saved + pushed(flag, d)).push(flag_at(flag, d)) =~= saved + pushed(
                    flag,
                    d + 1,
                ));
            },
            MaskEvent::Exit => {
                assert((saved + pushed(flag, d)).drop_last() =~= saved + pushed(flag, d - 1));
            },
        }
    }
}

/// However critical sections nest inside one another, once every section is
/// closed the interrupt-enable flag is the one observed before the outermost
/// section was entered, and no recorded flag is left over.
pub proof fn lemma_nested_sections_restore(flag: bool, events: Seq<MaskEvent>)
    requires
        balanced(events),
    ensures
        run_sections(flag, Seq::empty(), events) == Some((flag, Seq::<bool>::empty())),
{
    lemma_open_sections(flag, Seq::empty(), events);
    assert(Seq::<bool>::empty() + pushed(flag, 0) =~= Seq::<bool>::empty());
}

} // verus!
