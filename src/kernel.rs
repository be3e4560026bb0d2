//! The kernel aggregate: the bootstrap that brings the machine up inside one
//! critical section, and the demo loop that runs on it afterwards.

use vstd::prelude::*;
use crate::framebuffer::{Color, Dimensions, FrameBuffer, Point, Rect};
use crate::interrupt::{Cpu, InterruptGuard};
use crate::irq::{deliver, HandlerKind, InterruptLookup, IrqId, Pic, PIC1_COMMAND, PIC1_DATA, PIC2_COMMAND, PIC2_DATA};
use crate::keyboard::{apply_key_inputs, held_after, KeyCode, KeyboardInput, Ps2Keyboard, PS2_DATA, PS2_STATUS};
use crate::multiboot::{verify_multiboot_magic, BootError, MultibootHeader, MULTIBOOT_BOOTLOADER_MAGIC};
use crate::port::PortManager;
use crate::time::{Rtc, RTC_DATA, RTC_INDEX};

verus! {

/// The steps of bootstrap, in the only order they happen.
#[derive(Clone, Copy, Debug, PartialEq, Eq, Structural)]
pub enum BootStage {
    Uncreated,
    DescriptorTablesLoaded,
    InterruptRegistryBuilt,
    ControllerInitialized,
    ClockArmed,
    KeyboardArmed,
    DefaultHandlersInstalled,
    Ready,
}

/// A stage reached during bootstrap, with the interrupt-enable flag as it
/// stood when the stage was reached.
#[derive(Clone, Copy, Debug, PartialEq, Eq, Structural)]
pub struct BootRecord {
    pub stage: BootStage,
    pub interrupts_enabled: bool,
}

/// The stages of bootstrap, in order.
pub open spec fn boot_chain() -> Seq<BootStage> {
    seq![
        BootStage::Uncreated,
        BootStage::DescriptorTablesLoaded,
        BootStage::InterruptRegistryBuilt,
        BootStage::ControllerInitialized,
        BootStage::ClockArmed,
        BootStage::KeyboardArmed,
        BootStage::DefaultHandlersInstalled,
        BootStage::Ready,
    ]
}

/// The registrations bootstrap makes, in order.
pub open spec fn boot_handlers() -> Seq<(IrqId, HandlerKind)> {
    seq![
        (IrqId::Pic2(0), HandlerKind::Clock),
        (IrqId::Pic1(1), HandlerKind::Keyboard),
        (IrqId::Pic1(0), HandlerKind::Timer),
    ]
}

/// The ports the drivers hold after bootstrap.
pub open spec fn boot_ports() -> Set<u16> {
    set![PIC1_COMMAND, PIC1_DATA, PIC2_COMMAND, PIC2_DATA, RTC_INDEX, RTC_DATA, PS2_DATA, PS2_STATUS]
}

/// The kernel: the machine state and the drivers built on it.
pub struct Kernel {
    cpu: Cpu,
    interrupt_lookup: InterruptLookup,
    port_manager: PortManager,
    pic: Pic,
    rtc: Rtc,
    frame_buf: FrameBuffer,
    keyboard: Ps2Keyboard,
    boot_trace: Vec<BootRecord>,
}

impl Kernel {
    /// The processor state.
    pub closed spec fn cpu_state(&self) -> Cpu {
        self.cpu
    }

    /// The interrupt registry.
    pub closed spec fn lookup_table(&self) -> InterruptLookup {
        self.interrupt_lookup
    }

    /// The ports the drivers hold.
    pub closed spec fn ports(&self) -> Set<u16> {
        self.port_manager@
    }

    /// The framebuffer.
    pub closed spec fn frame(&self) -> FrameBuffer {
        self.frame_buf
    }

    /// The key events queued and not read yet.
    pub closed spec fn pending(&self) -> Seq<KeyboardInput> {
        self.keyboard.pending()
    }

    /// The stages bootstrap went through.
    pub closed spec fn trace(&self) -> Seq<BootRecord> {
        self.boot_trace@
    }

    /// The keyboard's queue is free.
    pub closed spec fn wf(&self) -> bool {
        self.keyboard.wf()
    }

    /// What bootstrap leaves behind, from `header` and a processor that
    /// stood as `cpu`: every stage of the chain reached in order with
    /// interrupts masked, the caller's interrupt-enable flag back in place,
    /// every handler and port in place, and nothing shown or queued yet.
    pub open spec fn booted_from(&self, header: MultibootHeader, cpu: Cpu) -> bool {
        &&& self.wf()
        &&& self.trace().len() == boot_chain().len()
        &&& forall|i: int|
            0 <= i < self.trace().len() ==> (#[trigger] self.trace()[i]).stage == boot_chain()[i]
                && !self.trace()[i].interrupts_enabled
        &&& self.cpu_state() == (Cpu { interrupts_enabled: cpu.interrupts_enabled, tables_loaded: true })
        &&& self.lookup_table()@ == boot_handlers()
        &&& self.ports() == boot_ports()
        &&& self.frame().spec_width() == header.framebuffer_width
        &&& self.frame().spec_height() == header.framebuffer_height
        &&& self.frame().spec_pitch() == header.framebuffer_pitch
        &&& self.frame().base() == header.framebuffer_addr
        &&& self.frame().presented() == 0
        &&& self.frame().shown() == Seq::<Rect>::empty()
        &&& self.pending() == Seq::<KeyboardInput>::empty()
    }

    /// Brings the machine up. Descriptor tables, registry, controller,
    /// clock, keyboard and default handlers are set up in that order inside
    /// one critical section, which restores the caller's interrupt-enable
    /// flag as it closes.
    pub fn new(multiboot_header: &MultibootHeader, cpu: Cpu) -> (r: Self)
        ensures
            r.booted_from(*multiboot_header, cpu),
    {
        let mut cpu = cpu;
        let mut boot_trace: Vec<BootRecord> = Vec::new();
        let guard = InterruptGuard::enter(&mut cpu);
        boot_trace.push(BootRecord { stage: BootStage::Uncreated, interrupts_enabled: cpu.interrupts_enabled });

        let mut port_manager = PortManager::new();
        cpu.load_descriptor_tables();
        boot_trace.push(
            BootRecord { stage: BootStage::DescriptorTablesLoaded, interrupts_enabled: cpu.interrupts_enabled },
        );

        let mut interrupt_lookup = InterruptLookup::new();
        boot_trace.push(
            BootRecord { stage: BootStage::InterruptRegistryBuilt, interrupts_enabled: cpu.interrupts_enabled },
        );

        let pic = Pic::init(&mut port_manager);
        boot_trace.push(
            BootRecord { stage: BootStage::ControllerInitialized, interrupts_enabled: cpu.interrupts_enabled },
        );

        let rtc = Rtc::enable_irq(&mut port_manager, &mut interrupt_lookup);
        boot_trace.push(BootRecord { stage: BootStage::ClockArmed, interrupts_enabled: cpu.interrupts_enabled });

        let keyboard = Ps2Keyboard::new(&mut port_manager, &mut interrupt_lookup);
        boot_trace.push(BootRecord { stage: BootStage::KeyboardArmed, interrupts_enabled: cpu.interrupts_enabled });

        interrupt_lookup.register_handler(IrqId::Pic1(0), HandlerKind::Timer);
        boot_trace.push(
            BootRecord { stage: BootStage::DefaultHandlersInstalled, interrupts_enabled: cpu.interrupts_enabled },
        );

        let frame_buf = FrameBuffer::new(multiboot_header);
        boot_trace.push(BootRecord { stage: BootStage::Ready, interrupts_enabled: cpu.interrupts_enabled });
        guard.exit(&mut cpu);

        let r = Kernel { cpu, interrupt_lookup, port_manager, pic, rtc, frame_buf, keyboard, boot_trace };
        assert(r.trace() =~= seq![
            BootRecord { stage: BootStage::Uncreated, interrupts_enabled: false },
            BootRecord { stage: BootStage::DescriptorTablesLoaded, interrupts_enabled: false },
            BootRecord { stage: BootStage::InterruptRegistryBuilt, interrupts_enabled: false },
            BootRecord { stage: BootStage::ControllerInitialized, interrupts_enabled: false },
            BootRecord { stage: BootStage::ClockArmed, interrupts_enabled: false },
            BootRecord { stage: BootStage::KeyboardArmed, interrupts_enabled: false },
            BootRecord { stage: BootStage::DefaultHandlersInstalled, interrupts_enabled: false },
            BootRecord { stage: BootStage::Ready, interrupts_enabled: false },
        ]);
        assert(r.lookup_table()@ =~= boot_handlers());
        assert(r.ports() =~= boot_ports());
        r
    }
    /// Boots from what the loader handed over: refuses a bad signature before
    /// touching any hardware, else brings the machine up.
    pub fn boot(magic: u32, multiboot_header: &MultibootHeader, cpu: Cpu) -> (r: Result<Self, BootError>)
        ensures
            r is Ok <==> magic == MULTIBOOT_BOOTLOADER_MAGIC,
            r is Ok ==> r->Ok_0.booted_from(*multiboot_header, cpu),
            r is Err ==> r->Err_0 == BootError::BadMagic(magic),
    {
        match verify_multiboot_magic(magic) {
            Ok(()) => Ok(Kernel::new(multiboot_header, cpu)),
            Err(e) => Err(e),
        }
    }

    /// Unmasks interrupts, once bootstrap is over, so that the clock and the
    /// keyboard can deliver events to the run loop.
    pub fn enable_interrupts(&mut self)
        ensures
            final(self).cpu_state() == (Cpu { interrupts_enabled: true, ..old(self).cpu_state() }),
            same_except_cpu(*old(self), *final(self)),
            final(self).frame() == old(self).frame(),
            final(self).wf() == old(self).wf(),
            final(self).pending() == old(self).pending(),
    {
        self.cpu.enable_interrupts();
    }

    /// Raises the keyboard's line with the event its controller decoded.
    /// Where the line is delivered, the handler queues the event; the result
    /// says whether it was.
    pub fn keyboard_interrupt(&mut self, input: KeyboardInput) -> (r: bool)
        requires
            old(self).wf(),
        ensures
            r == (deliver(old(self).cpu_state(), old(self).lookup_table(), IrqId::Pic1(1))
                == Some(HandlerKind::Keyboard)),
            final(self).pending() == if r {
                old(self).pending().push(input)
            } else {
                old(self).pending()
            },
            final(self).wf(),
            final(self).cpu_state() == old(self).cpu_state(),
            same_except_cpu(*old(self), *final(self)),
            final(self).frame() == old(self).frame(),
    {
        match self.interrupt_lookup.dispatch(&self.cpu, IrqId::Pic1(1)) {
            Some(HandlerKind::Keyboard) => {
                let _ = self.keyboard.handle_interrupt(input);
                true
            },
            _ => false,
        }
    }

    /// One pass of the demo loop: move the animated shapes, drain the key
    /// events into the held-key slot, move the player by the held key, and
    /// present the frame.
    pub fn square_demo(&mut self, demo: &mut DemoState)
        requires
            old(self).wf(),
            old(demo).wf(),
        ensures
            *final(demo) == demo_step(*old(demo), old(self).pending()),
            final(demo).wf(),
            final(self).wf(),
            final(self).pending() == Seq::<KeyboardInput>::empty(),
            final(self).frame().shown() == demo_frame(
                *final(demo),
                old(self).frame().spec_width(),
                old(self).frame().spec_height(),
            ),
            final(self).frame().presented() == old(self).frame().presented().saturating_add(1),
            final(self).frame().spec_width() == old(self).frame().spec_width(),
            final(self).frame().spec_height() == old(self).frame().spec_height(),
            final(self).cpu_state() == old(self).cpu_state(),
            same_except_cpu(*old(self), *final(self)),
    {
        demo.red.tl.x = advance_wrapping(demo.red.tl.x, RED_STEP);
        demo.yellow.tl.y = advance_wrapping(demo.yellow.tl.y, YELLOW_STEP);

        let inputs = self.keyboard.read_input();
        demo.held = apply_key_inputs(demo.held, &inputs);
        demo.player.tl = move_player(demo.player.tl, demo.held);

        let width = self.frame_buf.width() as i64;
        let height = self.frame_buf.height() as i64;
        let mut frame: Vec<Rect> = Vec::new();
        frame.push(demo.red);
        frame.push(demo.yellow);
        frame.push(demo.player);
        frame.push(Rect::new(Point::new(width - 100, 0), Dimensions::new(200, 200), Color::new_rgb(0, 255, 0)));
        frame.push(Rect::new(Point::new(-100, -100), Dimensions::new(200, 200), Color::new_rgb(0, 0, 255)));
        frame.push(
            Rect::new(Point::new(width - 100, height - 100), Dimensions::new(200, 200), Color::new_rgb(255, 0, 255)),
        );
        assert(frame@ =~= demo_frame(*demo, self.frame_buf.spec_width(), self.frame_buf.spec_height()));
        self.frame_buf.present_frame(frame);
    }

    /// Runs `ticks` passes of the demo loop with no new key events arriving
    /// in between.
    pub fn run(&mut self, demo: &mut DemoState, ticks: u64)
        requires
            old(self).wf(),
            old(demo).wf(),
        ensures
            *final(demo) == demo_run(*old(demo), old(self).pending(), ticks as nat),
            final(demo).wf(),
            final(self).wf(),
            ticks > 0 ==> final(self).pending() == Seq::<KeyboardInput>::empty(),
            final(self).cpu_state() == old(self).cpu_state(),
            same_except_cpu(*old(self), *final(self)),
    {
        let mut left: u64 = ticks;
        while left > 0
            invariant
                self.wf(),
                demo.wf(),
                demo_run(*demo, self.pending(), left as nat) == demo_run(
                    *old(demo),
                    old(self).pending(),
                    ticks as nat,
                ),
                left < ticks ==> self.pending() == Seq::<KeyboardInput>::empty(),
                left <= ticks,
                self.cpu_state() == old(self).cpu_state(),
                same_except_cpu(*old(self), *self),
            decreases left,
        {
            self.square_demo(demo);
            left = left - 1;
        }
    }

    /// The processor state.
    pub fn cpu(&self) -> (r: Cpu)
        ensures
            r == self.cpu_state(),
    {
        self.cpu
    }

    /// The framebuffer.
    pub fn frame_buffer(&self) -> (r: &FrameBuffer)
        ensures
            *r == self.frame(),
    {
        &self.frame_buf
    }

    /// The stages bootstrap went through.
    pub fn boot_trace(&self) -> (r: &Vec<BootRecord>)
        ensures
            r@ == self.trace(),
    {
        &self.boot_trace
    }

    /// The interrupt registry.
    pub fn interrupt_lookup(&self) -> (r: &InterruptLookup)
        ensures
            *r == self.lookup_table(),
    {
        &self.interrupt_lookup
    }

    /// The handler that runs if `irq` is raised now.
    pub fn dispatch(&self, irq: IrqId) -> (r: Option<HandlerKind>)
        ensures
            r == deliver(self.cpu_state(), self.lookup_table(), irq),
    {
        self.interrupt_lookup.dispatch(&self.cpu, irq)
    }

    /// Whether a driver holds `port`.
    pub fn is_port_claimed(&self, port: u16) -> (r: bool)
        ensures
            r == self.ports().contains(port),
    {
        self.port_manager.is_claimed(port)
    }
}

/// No handler can run during bootstrap: at every stage it went through
/// interrupts were masked, so no line is delivered there, whatever the
/// registry held.
pub proof fn lemma_no_handler_during_boot(
    k: Kernel,
    header: MultibootHeader,
    cpu: Cpu,
    i: int,
    at: Cpu,
    lookup: InterruptLookup,
    irq: IrqId,
)
    requires
        k.booted_from(header, cpu),
        0 <= i < k.trace().len(),
        at.interrupts_enabled == k.trace()[i].interrupts_enabled,
    ensures
        k.trace()[i].stage == boot_chain()[i],
        deliver(at, lookup, irq) is None,
{
}

/// `b` differs from `a` at most in the processor, the frame on screen and
/// the key queue.
pub open spec fn same_except_cpu(a: Kernel, b: Kernel) -> bool {
    &&& b.lookup_table() == a.lookup_table()
    &&& b.ports() == a.ports()
    &&& b.trace() == a.trace()
    &&& b.frame().spec_width() == a.frame().spec_width()
    &&& b.frame().spec_height() == a.frame().spec_height()
}

/// Horizontal step of the red square per pass.
pub const RED_STEP: i64 = 1;
/// Vertical step of the yellow square per pass.
pub const YELLOW_STEP: i64 = 4;
/// Where the animated squares wrap back to zero.
pub const WRAP_LIMIT: i64 = 400;
/// How far the player moves per pass while a direction key is held.
pub const PLAYER_SPEED: i64 = 16;

/// What the demo loop carries from one pass to the next.
#[derive(Clone, Copy, Debug, PartialEq, Eq, Structural)]
pub struct DemoState {
    pub red: Rect,
    pub yellow: Rect,
    pub player: Rect,
    pub held: Option<KeyCode>,
}

impl DemoState {
    /// The animated coordinates lie within the wrap range.
    pub open spec fn wf(&self) -> bool {
        &&& 0 <= self.red.tl.x <= WRAP_LIMIT
        &&& 0 <= self.yellow.tl.y <= WRAP_LIMIT
    }

    /// The demo's opening scene, with no key held.
    pub fn new() -> (r: Self)
        ensures
            r == initial_demo(),
            r.wf(),
    {
        DemoState {
            red: Rect::new(Point::new(0, 500), Dimensions::new(200, 200), Color::new_rgb(255, 0, 0)),
            yellow: Rect::new(Point::new(400, 0), Dimensions::new(200, 200), Color::new_rgb(255, 255, 0)),
            player: Rect::new(Point::new(400, 400), Dimensions::new(200, 200), Color::new_rgb(255, 255, 255)),
            held: None,
        }
    }
}

/// The demo's opening scene.
pub open spec fn initial_demo() -> DemoState {
    DemoState {
        red: Rect { tl: Point { x: 0, y: 500 }, dims: Dimensions { width: 200, height: 200 }, color: Color { r: 255, g: 0, b: 0 } },
        yellow: Rect { tl: Point { x: 400, y: 0 }, dims: Dimensions { width: 200, height: 200 }, color: Color { r: 255, g: 255, b: 0 } },
        player: Rect { tl: Point { x: 400, y: 400 }, dims: Dimensions { width: 200, height: 200 }, color: Color { r: 255, g: 255, b: 255 } },
        held: None,
    }
}

/// `c` moved by `step`, back to zero once past the wrap limit.
pub open spec fn wrapped(c: i64, step: i64) -> i64 {
    if c + step > WRAP_LIMIT {
        0
    } else {
        (c + step) as i64
    }
}

/// `c + d`, held at the bounds of `i64`.
pub open spec fn clamped_add(c: i64, d: int) -> i64 {
    if c + d > i64::MAX {
        i64::MAX
    } else if c + d < i64::MIN {
        i64::MIN
    } else {
        (c + d) as i64
    }
}

/// The player's corner after one pass with `held` down: W up, S down, D
/// right, A left, by the fixed speed; any other key, or none, keeps it.
pub open spec fn moved(p: Point, held: Option<KeyCode>) -> Point {
    match held {
        Some(KeyCode::KeyW) => Point { y: clamped_add(p.y, -PLAYER_SPEED), ..p },
        Some(KeyCode::KeyS) => Point { y: clamped_add(p.y, PLAYER_SPEED as int), ..p },
        Some(KeyCode::KeyD) => Point { x: clamped_add(p.x, PLAYER_SPEED as int), ..p },
        Some(KeyCode::KeyA) => Point { x: clamped_add(p.x, -PLAYER_SPEED), ..p },
        _ => p,
    }
}

/// The demo after one pass that read `inputs`.
pub open spec fn demo_step(d: DemoState, inputs: Seq<KeyboardInput>) -> DemoState {
    let held = held_after(d.held, inputs);
    DemoState {
        red: Rect { tl: Point { x: wrapped(d.red.tl.x, RED_STEP), ..d.red.tl }, ..d.red },
        yellow: Rect { tl: Point { y: wrapped(d.yellow.tl.y, YELLOW_STEP), ..d.yellow.tl }, ..d.yellow },
        player: Rect { tl: moved(d.player.tl, held), ..d.player },
        held,
    }
}

/// The demo after `n` passes, the first of which read `inputs` and the
/// others nothing.
pub open spec fn demo_run(d: DemoState, inputs: Seq<KeyboardInput>, n: nat) -> DemoState
    decreases n,
{
    if n == 0 {
        d
    } else {
        demo_run(demo_step(d, inputs), Seq::empty(), (n - 1) as nat)
    }
}

/// The frame presented for `d` on a screen of `width` by `height`: the
/// three moving squares, then three fixed ones over the corners.
pub open spec fn demo_frame(d: DemoState, width: u32, height: u32) -> Seq<Rect> {
    let size = Dimensions { width: 200, height: 200 };
    seq![
        d.red,
        d.yellow,
        d.player,
        Rect { tl: Point { x: (width - 100) as i64, y: 0 }, dims: size, color: Color { r: 0, g: 255, b: 0 } },
        Rect { tl: Point { x: -100i64, y: -100i64 }, dims: size, color: Color { r: 0, g: 0, b: 255 } },
        Rect {
            tl: Point { x: (width - 100) as i64, y: (height - 100) as i64 },
            dims: size,
            color: Color { r: 255, g: 0, b: 255 },
        },
    ]
}

/// `c` moved by `step`, back to zero once past the wrap limit.
fn advance_wrapping(c: i64, step: i64) -> (r: i64)
    requires
        0 <= c <= WRAP_LIMIT,
        0 < step <= WRAP_LIMIT,
    ensures
        r == wrapped(c, step),
        0 <= r <= WRAP_LIMIT,
{
    let next = c + step;
    if next > WRAP_LIMIT {
        0
    } else {
        next
    }
}

/// `c + d`, held at the bounds of `i64`.
fn add_clamped(c: i64, d: i64) -> (r: i64)
    ensures
        r == clamped_add(c, d as int),
{
    if d > 0 && c > i64::MAX - d {
        i64::MAX
    } else if d < 0 && c < i64::MIN - d {
        i64::MIN
    } else {
        c + d
    }
}

/// The player's corner after one pass with `held` down.
fn move_player(p: Point, held: Option<KeyCode>) -> (r: Point)
    ensures
        r == moved(p, held),
{
    match held {
        Some(KeyCode::KeyW) => Point { y: add_clamped(p.y, -PLAYER_SPEED), ..p },
        Some(KeyCode::KeyS) => Point { y: add_clamped(p.y, PLAYER_SPEED), ..p },
        Some(KeyCode::KeyD) => Point { x: add_clamped(p.x, PLAYER_SPEED), ..p },
        Some(KeyCode::KeyA) => Point { x: add_clamped(p.x, -PLAYER_SPEED), ..p },
        _ => p,
    }
}

} // verus!
