use minikernel::interrupt::Cpu;
use minikernel::irq::{HandlerKind, InterruptLookup, IrqId};
use minikernel::keyboard::{apply_key_input, apply_key_inputs, KeyCode, KeyState, KeyboardInput, Ps2Keyboard};
use minikernel::port::PortManager;

fn press(k: KeyCode) -> KeyboardInput {
    KeyboardInput::new(k, KeyState::Pressed)
}

fn release(k: KeyCode) -> KeyboardInput {
    KeyboardInput::new(k, KeyState::Released)
}

#[test]
fn press_then_release_clears_held_key() {
    let held = apply_key_input(None, press(KeyCode::KeyD));
    assert_eq!(held, Some(KeyCode::KeyD));
    assert_eq!(apply_key_input(held, release(KeyCode::KeyD)), None);
    let held = apply_key_input(Some(KeyCode::KeyA), press(KeyCode::KeyW));
    assert_eq!(apply_key_input(held, release(KeyCode::KeyW)), None);
}

#[test]
fn release_of_other_key_is_ignored() {
    assert_eq!(apply_key_input(Some(KeyCode::KeyW), release(KeyCode::KeyS)), Some(KeyCode::KeyW));
    assert_eq!(apply_key_input(None, release(KeyCode::Other(0x39))), None);
}

#[test]
fn last_pressed_key_wins() {
    let inputs = vec![press(KeyCode::KeyW), press(KeyCode::KeyA), release(KeyCode::KeyW)];
    assert_eq!(apply_key_inputs(None, &inputs), Some(KeyCode::KeyA));
    let inputs = vec![press(KeyCode::KeyW), press(KeyCode::KeyA), release(KeyCode::KeyA)];
    assert_eq!(apply_key_inputs(None, &inputs), None);
    assert_eq!(apply_key_inputs(Some(KeyCode::KeyS), &Vec::new()), Some(KeyCode::KeyS));
}

#[test]
fn registry_replaces_and_looks_up() {
    let mut lookup = InterruptLookup::new();
    assert_eq!(lookup.lookup(IrqId::Pic1(0)), None);
    lookup.register_handler(IrqId::Pic1(0), HandlerKind::Timer);
    lookup.register_handler(IrqId::Pic2(0), HandlerKind::Clock);
    assert_eq!(lookup.lookup(IrqId::Pic1(0)), Some(HandlerKind::Timer));
    assert_eq!(lookup.lookup(IrqId::Pic2(0)), Some(HandlerKind::Clock));
    assert_eq!(lookup.lookup(IrqId::Pic2(1)), None);
    lookup.register_handler(IrqId::Pic1(0), HandlerKind::Keyboard);
    assert_eq!(lookup.lookup(IrqId::Pic1(0)), Some(HandlerKind::Keyboard));
    assert_eq!(lookup.lookup(IrqId::Pic2(0)), Some(HandlerKind::Clock));
}

#[test]
fn masked_interrupts_reach_no_handler() {
    let mut lookup = InterruptLookup::new();
    lookup.register_handler(IrqId::Pic1(1), HandlerKind::Keyboard);
    let masked = Cpu::new(false);
    let open = Cpu::new(true);
    assert_eq!(lookup.dispatch(&masked, IrqId::Pic1(1)), None);
    assert_eq!(lookup.dispatch(&open, IrqId::Pic1(1)), Some(HandlerKind::Keyboard));
    assert_eq!(lookup.dispatch(&open, IrqId::Pic1(2)), None);
}

#[test]
fn keyboard_queue_drains_in_order() {
    let mut ports = PortManager::new();
    let mut lookup = InterruptLookup::new();
    let mut kb = Ps2Keyboard::new(&mut ports, &mut lookup);
    assert!(ports.is_claimed(0x60) && ports.is_claimed(0x64));
    assert_eq!(lookup.lookup(IrqId::Pic1(1)), Some(HandlerKind::Keyboard));
    assert!(kb.read_input().is_empty());
    assert_eq!(kb.handle_interrupt(press(KeyCode::KeyA)), Ok(()));
    assert_eq!(kb.handle_interrupt(release(KeyCode::KeyA)), Ok(()));
    assert_eq!(kb.read_input(), vec![press(KeyCode::KeyA), release(KeyCode::KeyA)]);
    assert!(kb.read_input().is_empty());
}
