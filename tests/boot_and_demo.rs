use minikernel::exit::QemuExitCode;
use minikernel::framebuffer::{Color, Dimensions, Point, Rect};
use minikernel::interrupt::Cpu;
use minikernel::irq::{HandlerKind, IrqId};
use minikernel::kernel::{BootStage, DemoState, Kernel};
use minikernel::keyboard::{KeyCode, KeyState, KeyboardInput};
use minikernel::multiboot::{verify_multiboot_magic, BootError, MultibootHeader, MULTIBOOT_BOOTLOADER_MAGIC};

fn header() -> MultibootHeader {
    MultibootHeader {
        flags: 1 << 12,
        framebuffer_addr: 0xFD00_0000,
        framebuffer_pitch: 4096,
        framebuffer_width: 1024,
        framebuffer_height: 768,
        framebuffer_bpp: 32,
    }
}

fn rect(x: i64, y: i64, r: u8, g: u8, b: u8) -> Rect {
    Rect::new(Point::new(x, y), Dimensions::new(200, 200), Color::new_rgb(r, g, b))
}

fn booted() -> Kernel {
    Kernel::boot(MULTIBOOT_BOOTLOADER_MAGIC, &header(), Cpu::new(false)).expect("valid magic")
}

#[test]
fn boot_walks_the_whole_chain_masked() {
    let k = booted();
    let stages: Vec<BootStage> = k.boot_trace().iter().map(|r| r.stage).collect();
    assert_eq!(
        stages,
        vec![
            BootStage::Uncreated,
            BootStage::DescriptorTablesLoaded,
            BootStage::InterruptRegistryBuilt,
            BootStage::ControllerInitialized,
            BootStage::ClockArmed,
            BootStage::KeyboardArmed,
            BootStage::DefaultHandlersInstalled,
            BootStage::Ready,
        ]
    );
    assert!(k.boot_trace().iter().all(|r| !r.interrupts_enabled));
    assert!(!k.cpu().interrupts_enabled);
    assert!(k.cpu().tables_loaded);
    assert_eq!(k.dispatch(IrqId::Pic1(1)), None);
    for port in [0x20u16, 0x21, 0xA0, 0xA1, 0x70, 0x71, 0x60, 0x64] {
        assert!(k.is_port_claimed(port));
    }
    assert!(!k.is_port_claimed(0x3F8));
    assert_eq!(k.interrupt_lookup().lookup(IrqId::Pic1(0)), Some(HandlerKind::Timer));
    assert_eq!(k.interrupt_lookup().lookup(IrqId::Pic2(0)), Some(HandlerKind::Clock));
    assert_eq!(k.interrupt_lookup().lookup(IrqId::Pic1(1)), Some(HandlerKind::Keyboard));
}

#[test]
fn boot_restores_callers_enabled_flag() {
    let k = Kernel::new(&header(), Cpu::new(true));
    assert!(k.cpu().interrupts_enabled);
    assert!(k.boot_trace().iter().all(|r| !r.interrupts_enabled));
    assert_eq!(k.dispatch(IrqId::Pic2(0)), Some(HandlerKind::Clock));
}

#[test]
fn first_pass_presents_one_frame() {
    let mut k = booted();
    assert_eq!(k.frame_buffer().width(), 1024);
    assert_eq!(k.frame_buffer().height(), 768);
    assert_eq!(k.frame_buffer().frames_presented(), 0);
    k.enable_interrupts();
    let mut demo = DemoState::new();
    k.square_demo(&mut demo);
    assert_eq!(k.frame_buffer().frames_presented(), 1);
    assert_eq!(
        k.frame_buffer().shown_frame(),
        &vec![
            rect(1, 500, 255, 0, 0),
            rect(400, 4, 255, 255, 0),
            rect(400, 400, 255, 255, 255),
            rect(924, 0, 0, 255, 0),
            rect(-100, -100, 0, 0, 255),
            rect(924, 668, 255, 0, 255),
        ]
    );
}

#[test]
fn right_key_moves_player_one_step() {
    let mut k = booted();
    k.enable_interrupts();
    let mut demo = DemoState::new();
    let x0 = demo.player.tl.x;
    assert!(k.keyboard_interrupt(KeyboardInput::new(KeyCode::KeyD, KeyState::Pressed)));
    k.square_demo(&mut demo);
    assert_eq!(demo.player.tl.x, x0 + 16);
    assert_eq!(demo.player.tl.y, 400);
    assert!(k.keyboard_interrupt(KeyboardInput::new(KeyCode::KeyD, KeyState::Released)));
    k.square_demo(&mut demo);
    assert_eq!(demo.player.tl.x, x0 + 16);
    assert_eq!(demo.held, None);
}

#[test]
fn bad_magic_halts_with_panic_line() {
    let r = Kernel::boot(0xDEAD_BEEF, &header(), Cpu::new(false));
    let e = r.err().expect("bad magic refused");
    assert_eq!(e, BootError::BadMagic(0xDEAD_BEEF));
    assert!(e.diagnostic().contains("PANIC"));
    assert_eq!(e.exit_code(), QemuExitCode::Failed);
    assert_eq!(e.exit_code().code(), 0x11);
    assert_eq!(QemuExitCode::Success.code(), 0x10);
    assert_eq!(verify_multiboot_magic(0x2BADB002), Ok(()));
    assert_eq!(verify_multiboot_magic(0x1BADB002), Err(BootError::BadMagic(0x1BADB002)));
}

#[test]
fn masked_keyboard_line_queues_nothing() {
    let mut k = booted();
    let mut demo = DemoState::new();
    assert!(!k.keyboard_interrupt(KeyboardInput::new(KeyCode::KeyW, KeyState::Pressed)));
    k.square_demo(&mut demo);
    assert_eq!(demo.held, None);
    assert_eq!(demo.player.tl, Point::new(400, 400));
}

#[test]
fn each_direction_key_moves_its_way() {
    let mut k = booted();
    k.enable_interrupts();
    let mut demo = DemoState::new();
    let moves = [
        (KeyCode::KeyW, 400, 384),
        (KeyCode::KeyS, 400, 400),
        (KeyCode::KeyA, 384, 400),
        (KeyCode::KeyD, 400, 400),
        (KeyCode::Other(0x39), 400, 400),
    ];
    for (key, x, y) in moves {
        k.keyboard_interrupt(KeyboardInput::new(key, KeyState::Pressed));
        k.square_demo(&mut demo);
        assert_eq!(demo.player.tl, Point::new(x, y));
    }
}

#[test]
fn animation_wraps_past_limit() {
    let mut k = booted();
    let mut demo = DemoState::new();
    k.run(&mut demo, 100);
    assert_eq!(demo.red.tl.x, 100);
    assert_eq!(demo.yellow.tl.y, 400);
    assert_eq!(k.frame_buffer().frames_presented(), 100);
    k.run(&mut demo, 1);
    assert_eq!(demo.yellow.tl.y, 0);
    k.run(&mut demo, 300);
    assert_eq!(demo.red.tl.x, 0);
    k.run(&mut demo, 0);
    assert_eq!(k.frame_buffer().frames_presented(), 401);
}

#[test]
fn player_stops_at_coordinate_bound() {
    let mut k = booted();
    k.enable_interrupts();
    let mut demo = DemoState::new();
    demo.player.tl.x = i64::MAX - 3;
    k.keyboard_interrupt(KeyboardInput::new(KeyCode::KeyD, KeyState::Pressed));
    k.square_demo(&mut demo);
    assert_eq!(demo.player.tl.x, i64::MAX);
    k.square_demo(&mut demo);
    assert_eq!(demo.player.tl.x, i64::MAX);
}
