//! Key events, the held-key state machine, and the PS/2 keyboard's event
//! queue, which its interrupt handler fills and the main loop drains.

use vstd::prelude::*;
use crate::irq::{HandlerKind, InterruptLookup, IrqId};
use crate::lock::{LockError, SpinLock};
use crate::port::{Port, PortManager};

verus! {

/// The keys the demo reacts to; any other key carries its scan code.
#[derive(Clone, Copy, Debug, PartialEq, Eq, Structural)]
pub enum KeyCode {
    KeyW,
    KeyA,
    KeyS,
    KeyD,
    Other(u8),
}

/// Whether a key went down or came up.
#[derive(Clone, Copy, Debug, PartialEq, Eq, Structural)]
pub enum KeyState {
    Pressed,
    Released,
}

/// One key event.
#[derive(Clone, Copy, Debug, PartialEq, Eq, Structural)]
pub struct KeyboardInput {
    pub key_code: KeyCode,
    pub state: KeyState,
}

impl KeyboardInput {
    /// The event `state` for `key_code`.
    pub fn new(key_code: KeyCode, state: KeyState) -> (r: Self)
        ensures
            r == (KeyboardInput { key_code, state }),
    {
        KeyboardInput { key_code, state }
    }
}

/// The held key after `input`: a press makes its key the held one, a release
/// of the held key clears the slot, and a release of any other key changes
/// nothing.
pub open spec fn next_held(held: Option<KeyCode>, input: KeyboardInput) -> Option<KeyCode> {
    match input.state {
        KeyState::Pressed => Some(input.key_code),
        KeyState::Released => if held == Some(input.key_code) {
            None
        } else {
            held
        },
    }
}

/// The held key after `inputs`, in order.
pub open spec fn held_after(held: Option<KeyCode>, inputs: Seq<KeyboardInput>) -> Option<KeyCode>
    decreases inputs.len(),
{
    if inputs.len() == 0 {
        held
    } else {
        next_held(held_after(held, inputs.drop_last()), inputs.last())
    }
}

/// The held key after `input`.
pub fn apply_key_input(held: Option<KeyCode>, input: KeyboardInput) -> (r: Option<KeyCode>)
    ensures
        r == next_held(held, input),
{
    match input.state {
        KeyState::Pressed => Some(input.key_code),
        KeyState::Released => {
            let same = match held {
                Some(k) => k == input.key_code,
                None => false,
            };
            if same {
                None
            } else {
                held
            }
        },
    }
}

/// The held key after `inputs`, in order.
pub fn apply_key_inputs(held: Option<KeyCode>, inputs: &Vec<KeyboardInput>) -> (r: Option<KeyCode>)
    ensures
        r == held_after(held, inputs@),
{
    let mut cur = held;
    let mut i: usize = 0;
    while i < inputs.len()
        invariant
            i <= inputs@.len(),
            cur == held_after(held, inputs@.take(i as int)),
        decreases inputs@.len() - i,
    {
        assert(inputs@.take(i + 1).drop_last() =~= inputs@.take(i as int));
        cur = apply_key_input(cur, inputs[i]);
        i = i + 1;
    }
    assert(inputs@.take(i as int) =~= inputs@);
    cur
}

/// A press of a key followed at once by its release leaves no key held,
/// whatever was held before.
pub proof fn lemma_press_release_clears(held: Option<KeyCode>, key: KeyCode)
    ensures
        next_held(
            next_held(held, KeyboardInput { key_code: key, state: KeyState::Pressed }),
            KeyboardInput { key_code: key, state: KeyState::Released },
        ) == None::<KeyCode>,
{
}

/// Releasing a key other than the held one changes nothing.
pub proof fn lemma_release_other_ignored(held: Option<KeyCode>, key: KeyCode)
    requires
        held != Some(key),
    ensures
        next_held(held, KeyboardInput { key_code: key, state: KeyState::Released }) == held,
{
}

/// Data port of the PS/2 controller.
pub const PS2_DATA: u16 = 0x60;
/// Status and command port of the PS/2 controller.
pub const PS2_STATUS: u16 = 0x64;

/// The PS/2 keyboard: its ports, and the queue of events that its interrupt
/// handler has decoded and the main loop has not read yet.
pub struct Ps2Keyboard {
    data: Port,
    status: Port,
    queue: SpinLock<Vec<KeyboardInput>>,
}

impl Ps2Keyboard {
    /// The queue is free, between an interrupt handler's section and the
    /// main loop's.
    pub open spec fn wf(&self) -> bool {
        !self.queue_held()
    }

    /// The events not read yet, oldest first.
    pub closed spec fn pending(&self) -> Seq<KeyboardInput> {
        self.queue@->Some_0@
    }

    /// Whether the event queue is held.
    pub closed spec fn queue_held(&self) -> bool {
        self.queue.held()
    }

    /// The ports the driver was built on.
    pub closed spec fn ports(&self) -> Seq<u16> {
        seq![self.data@, self.status@]
    }

    /// Takes the controller's ports and installs the keyboard's handler on
    /// line 1 of the primary controller.
    pub fn new(ports: &mut PortManager, lookup: &mut InterruptLookup) -> (r: Self)
        requires
            !old(ports)@.contains(PS2_DATA),
            !old(ports)@.contains(PS2_STATUS),
        ensures
            r.wf(),
            r.pending() == Seq::<KeyboardInput>::empty(),
            r.ports() == seq![PS2_DATA, PS2_STATUS],
            final(ports)@ == old(ports)@.insert(PS2_DATA).insert(PS2_STATUS),
            final(lookup)@ == old(lookup)@.push((IrqId::Pic1(1), HandlerKind::Keyboard)),
    {
        let data = ports.claim(PS2_DATA);
        let status = ports.claim(PS2_STATUS);
        lookup.register_handler(IrqId::Pic1(1), HandlerKind::Keyboard);
        Ps2Keyboard { data, status, queue: SpinLock::new(Vec::new()) }
    }

    /// The interrupt handler's work: queue a decoded event. Where the
    /// interrupted context holds the queue, the handler would re-enter its
    /// section; the contention is reported and nothing is queued.
    pub fn handle_interrupt(&mut self, input: KeyboardInput) -> (r: Result<(), LockError>)
        ensures
            r is Ok <==> !old(self).queue_held(),
            r is Ok ==> final(self).wf() && final(self).pending() == old(self).pending().push(
                input,
            ),
            r is Err ==> r->Err_0 == LockError::AlreadyHeld,
            final(self).ports() == old(self).ports(),
    {
        match self.queue.try_lock() {
            Ok(mut guard) => {
                guard.get_mut().push(input);
                self.queue.unlock(guard);
                Ok(())
            },
            Err(e) => Err(e),
        }
    }

    /// Drains the events queued so far, oldest first.
    pub fn read_input(&mut self) -> (r: Vec<KeyboardInput>)
        requires
            old(self).wf(),
        ensures
            r@ == old(self).pending(),
            final(self).wf(),
            final(self).pending() == Seq::<KeyboardInput>::empty(),
            final(self).ports() == old(self).ports(),
    {
        let mut guard = self.queue.lock();
        let mut inputs: Vec<KeyboardInput> = Vec::new();
        core::mem::swap(guard.get_mut(), &mut inputs);
        self.queue.unlock(guard);
        inputs
    }
}

} // verus!
