use minikernel::interrupt::{Cpu, InterruptGuard};
use minikernel::lock::{LockError, SpinLock};
use minikernel::port::{PortError, PortManager};

#[test]
fn sequential_sessions_see_last_write() {
    let mut cell = SpinLock::new(7u32);
    let mut g = cell.try_lock().expect("free cell");
    assert_eq!(*g.get(), 7);
    g.set(11);
    cell.unlock(g);

    let g = cell.try_lock().expect("free again");
    assert_eq!(*g.get(), 11);
    cell.unlock(g);

    let mut g = cell.lock();
    *g.get_mut() += 5;
    cell.unlock(g);

    let g = cell.lock();
    assert_eq!(*g.get(), 16);
    cell.unlock(g);
    assert!(!cell.is_locked());
}

#[test]
fn second_acquire_is_refused() {
    let mut cell = SpinLock::new(vec![1u8, 2]);
    let g = cell.try_lock().expect("free cell");
    assert!(cell.is_locked());
    assert_eq!(cell.try_lock().err(), Some(LockError::AlreadyHeld));
    assert!(cell.is_locked());
    cell.unlock(g);
    let g = cell.try_lock().expect("released");
    assert_eq!(g.get(), &vec![1u8, 2]);
    cell.unlock(g);
}

#[test]
fn section_restores_enabled_flag() {
    let mut cpu = Cpu::new(true);
    let guard = InterruptGuard::enter(&mut cpu);
    assert!(!cpu.interrupts_enabled);
    guard.exit(&mut cpu);
    assert!(cpu.interrupts_enabled);
}

#[test]
fn section_keeps_masked_flag_masked() {
    let mut cpu = Cpu::new(false);
    let guard = InterruptGuard::enter(&mut cpu);
    assert!(!cpu.interrupts_enabled);
    guard.exit(&mut cpu);
    assert!(!cpu.interrupts_enabled);
}

#[test]
fn nested_sections_restore_outer_flag() {
    for start in [true, false] {
        let mut cpu = Cpu::new(start);
        let outer = InterruptGuard::enter(&mut cpu);
        let inner = InterruptGuard::enter(&mut cpu);
        let innermost = InterruptGuard::enter(&mut cpu);
        innermost.exit(&mut cpu);
        assert!(!cpu.interrupts_enabled);
        inner.exit(&mut cpu);
        assert!(!cpu.interrupts_enabled);
        let again = InterruptGuard::enter(&mut cpu);
        again.exit(&mut cpu);
        assert!(!cpu.interrupts_enabled);
        outer.exit(&mut cpu);
        assert_eq!(cpu.interrupts_enabled, start);
    }
}

#[test]
fn descriptor_tables_load_once_and_stay() {
    let mut cpu = Cpu::new(false);
    assert!(!cpu.tables_loaded);
    cpu.load_descriptor_tables();
    cpu.load_descriptor_tables();
    assert!(cpu.tables_loaded);
    assert!(!cpu.interrupts_enabled);
    cpu.enable_interrupts();
    assert!(cpu.interrupts_enabled && cpu.tables_loaded);
    cpu.disable_interrupts();
    assert!(!cpu.interrupts_enabled);
}

#[test]
fn port_is_handed_out_once() {
    let mut ports = PortManager::new();
    assert!(!ports.is_claimed(0x60));
    let p = ports.try_claim(0x60).expect("unclaimed port");
    assert_eq!(p.number(), 0x60);
    assert!(ports.is_claimed(0x60));
    assert_eq!(ports.try_claim(0x60).err(), Some(PortError::AlreadyClaimed(0x60)));
    let q = ports.claim(0x64);
    assert_eq!(q.number(), 0x64);
    assert!(ports.is_claimed(0x64));
    assert!(!ports.is_claimed(0x70));
}

#[test]
fn status_word_decodes_interrupt_flag() {
    assert!(minikernel::interrupt::interrupts_enabled_in(0x202));
    assert!(!minikernel::interrupt::interrupts_enabled_in(0x002));
    assert!(!minikernel::interrupt::interrupts_enabled_in(0xFFFF_FDFF));
    assert!(minikernel::interrupt::interrupts_enabled_in(0x200));
}
