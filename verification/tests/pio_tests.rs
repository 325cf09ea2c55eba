//! Scenario tests for the instruction store, unit lifecycle and FIFOs.

use pico_hal::pio::config::Config;
use pico_hal::pio::io::Request;
use pico_hal::pio::regs::HwEvent;
use pico_hal::pio::{transform, Pio, PioError, PioID, Program, Slot};

#[test]
fn install_empty_store_first_fit() {
    let mut pio = Pio::get(PioID::Pio0);
    let p = Program::new(-1, 0, 0, [0xE000u16; 8]);
    let h = pio.install(&p).unwrap();
    assert_eq!(h.offset(), 0);
    assert_eq!(h.mask(), 0x0000_00FF);
    assert_eq!(h.mask().count_ones(), 8);
    assert_eq!(pio.used, 0x0000_00FF);
}

#[test]
fn install_after_full_byte_takes_next_offset() {
    let mut pio = Pio::get(PioID::Pio0);
    let first = Program::new(-1, 0, 0, [0xE000u16; 8]);
    let h1 = pio.install(&first).unwrap();
    assert_eq!(h1.mask(), 0x0000_00FF);
    let second = Program::new(-1, 0, 0, [0xA000u16; 4]);
    let h2 = pio.install(&second).unwrap();
    assert_eq!(h2.offset(), 8);
    assert_eq!(h2.mask(), 0x0000_0F00);
    assert_eq!(h2.mask() & h1.mask(), 0);
    assert_eq!(h2.mask().count_ones(), 4);
}

#[test]
fn install_wraps_modulo_memory_size() {
    let mut pio = Pio::get(PioID::Pio0);
    let p = Program::new(30, 0, 0, [0xA042u16; 4]);
    let h = pio.install(&p).unwrap();
    assert_eq!(h.offset(), 30);
    assert_eq!(h.mask(), 0xC000_0003);
    assert_eq!(h.mask().count_ones(), 4);
    assert_eq!(pio.regs.instr_mem[30], 0xA042);
    assert_eq!(pio.regs.instr_mem[31], 0xA042);
    assert_eq!(pio.regs.instr_mem[0], 0xA042);
    assert_eq!(pio.regs.instr_mem[1], 0xA042);
}

#[test]
fn install_relocates_address_words() {
    let mut pio = Pio::get(PioID::Pio0);
    let p = Program::new(8, 2, 0, [0x0003u16, 0xE005]);
    let h = pio.install(&p).unwrap();
    assert_eq!(h.offset(), 8);
    // Address word: low five bits get the offset added, the rest is kept.
    assert_eq!(pio.regs.instr_mem[8], 0x000B);
    // Non-address word: untouched.
    assert_eq!(pio.regs.instr_mem[9], 0xE005);
    assert_eq!(h.wrap_src(), 2);
    assert_eq!(h.wrap_src_adjusted(), 10);
    assert_eq!(h.wrap_target_adjusted(), 8);
}

#[test]
fn transform_is_reversible_on_address_words() {
    // Relocating adds the offset to the operand and keeps the upper bits.
    assert_eq!(transform(4, 0x0003), Some(0x0007));
    assert_eq!(transform(4, 0x1FE3), Some(0x1FE7));
    // Words with any top bit set pass through unchanged.
    assert_eq!(transform(4, 0xE003), Some(0xE003));
    // Relocation beyond the memory fails.
    assert_eq!(transform(4, 0x001F), None);
    assert_eq!(transform(0, 0x001F), Some(0x001F));
}

#[test]
fn install_empty_program_is_invalid() {
    let mut pio = Pio::get(PioID::Pio0);
    let p = Program::new(-1, 0, 0, []);
    assert_eq!(pio.install(&p), Err(PioError::InvalidProgram));
}

#[test]
fn install_unplaceable_program_is_too_large() {
    let mut pio = Pio::get(PioID::Pio0);
    // The relocated operand would leave the memory at this fixed start.
    let p = Program::new(1, 0, 0, [0x001Fu16]);
    assert_eq!(pio.install(&p), Err(PioError::TooLarge));
    // A fixed start outside the memory admits nothing either.
    let q = Program::new(32, 0, 0, [0xE000u16]);
    assert_eq!(pio.install(&q), Err(PioError::TooLarge));
}

#[test]
fn install_when_full_is_too_large() {
    let mut pio = Pio::get(PioID::Pio0);
    let p = Program::new(-1, 0, 0, [0xE000u16; 32]);
    let h = pio.install(&p).unwrap();
    assert_eq!(h.mask(), 0xFFFF_FFFF);
    let q = Program::new(-1, 0, 0, [0xE000u16]);
    assert_eq!(pio.install(&q), Err(PioError::TooLarge));
    // Uninstalling frees the slots again.
    pio.uninstall(h);
    assert_eq!(pio.used, 0);
    assert!(pio.install(&q).is_ok());
}

#[test]
fn claim_all_four_units_then_none() {
    let mut pio = Pio::get(PioID::Pio0);
    let s0 = pio.state(Slot::Index0);
    let s1 = pio.state(Slot::Index1);
    let s2 = pio.state(Slot::Index2);
    let s3 = pio.state(Slot::Index3);
    assert!(s0.is_some());
    assert!(s1.is_some());
    assert!(s2.is_some());
    assert!(s3.is_some());
    assert!(pio.state(Slot::Index0).is_none());
    assert!(pio.state(Slot::Index1).is_none());
    assert!(pio.state(Slot::Index2).is_none());
    assert!(pio.state(Slot::Index3).is_none());
}

#[test]
fn release_then_reclaim_same_index() {
    let mut pio = Pio::get(PioID::Pio0);
    let s1 = pio.state(Slot::Index1).unwrap();
    assert!(pio.state(Slot::Index1).is_none());
    pio.release(s1);
    let again = pio.state(Slot::Index1);
    assert!(again.is_some());
    assert_eq!(again.unwrap().m.idx, Slot::Index1);
}

#[test]
fn configure_yields_stopped_unit_at_origin() {
    let mut pio = Pio::get(PioID::Pio0);
    let p = Program::new(-1, 4, 0, [0xE000u16; 8]);
    let h = pio.install(&p).unwrap();
    let s = pio.state(Slot::Index2).unwrap();
    let cfg = Config::new_with(&h);
    let stopped = cfg.configure(s, &mut pio.regs);
    // Enable bit of unit 2 is clear.
    assert_eq!(pio.regs.ctrl & 0b0100, 0);
    // The program counter sits at the origin.
    assert_eq!(pio.regs.unit2.addr, h.offset());
    assert_eq!(pio.regs.unit2.instr, h.offset() as u16);
    // Divisor one, wrap addresses from the handle.
    assert_eq!(pio.regs.unit2.clkdiv, 0x0001_0000);
    assert_eq!(pio.regs.unit2.execctrl, (4u32 << 12) | 0);
    // Restart pulses named exactly this unit.
    assert_eq!(pio.regs.last_restart, 0b0100);
    assert_eq!(pio.regs.last_clkdiv, 0b0100);
    assert_eq!(stopped.m.idx, Slot::Index2);
}

#[test]
fn start_and_stop_toggle_only_own_bit() {
    let mut pio = Pio::get(PioID::Pio0);
    let s0 = pio.state(Slot::Index0).unwrap();
    let s1 = pio.state(Slot::Index1).unwrap();
    let cfg = Config::new();
    let s0 = cfg.configure(s0, &mut pio.regs);
    let s1 = cfg.configure(s1, &mut pio.regs);
    let r0 = s0.start(&mut pio.regs);
    assert_eq!(pio.regs.ctrl, 0b0001);
    let r1 = s1.start(&mut pio.regs);
    assert_eq!(pio.regs.ctrl, 0b0011);
    let _s0 = r0.stop(&mut pio.regs);
    assert_eq!(pio.regs.ctrl, 0b0010);
    let _s1 = r1.stop(&mut pio.regs);
    assert_eq!(pio.regs.ctrl, 0b0000);
}

#[test]
fn group_start_sets_both_bits_in_one_write() {
    let mut pio = Pio::get(PioID::Pio0);
    let s2 = pio.state(Slot::Index2).unwrap();
    let s3 = pio.state(Slot::Index3).unwrap();
    let cfg = Config::new();
    let s2 = cfg.configure(s2, &mut pio.regs);
    let s3 = cfg.configure(s3, &mut pio.regs);
    let g = s2.group(s3);
    let running = g.start(&mut pio.regs);
    assert_eq!(pio.regs.ctrl, 0b1100);
    let mut stopped = running.stop(&mut pio.regs);
    assert_eq!(pio.regs.ctrl, 0b0000);
    stopped.sync(&mut pio.regs);
    assert_eq!(pio.regs.last_clkdiv, 0b1100);
    let (a, b) = stopped.free();
    assert_eq!(a.m.idx, Slot::Index2);
    assert_eq!(b.m.idx, Slot::Index3);
}

#[test]
fn try_write_on_full_fifo_would_block() {
    let mut pio = Pio::get(PioID::Pio0);
    let s = pio.state(Slot::Index0).unwrap();
    let s = Config::new().configure(s, &mut pio.regs);
    let tx = s.m.tx_u32();
    for w in [1u32, 2, 3, 4] {
        tx.try_write(&mut pio.regs, w).unwrap();
    }
    assert!(tx.is_full(&pio.regs));
    assert_eq!(tx.try_write(&mut pio.regs, 5), Err(PioError::WouldBlock));
    assert_eq!(pio.regs.unit0.tx, vec![1, 2, 3, 4]);
}

#[test]
fn blocking_write_returns_after_scripted_polls() {
    let mut pio = Pio::get(PioID::Pio0);
    let s = pio.state(Slot::Index0).unwrap();
    let s = Config::new().configure(s, &mut pio.regs);
    let tx = s.m.tx_u32();
    for w in [1u32, 2, 3, 4] {
        tx.try_write(&mut pio.regs, w).unwrap();
    }
    // The full flag clears only at the third poll, when the unit takes a
    // word.
    pio.regs.push_event(HwEvent::Idle);
    pio.regs.push_event(HwEvent::Idle);
    pio.regs.push_event(HwEvent::TxTake(Slot::Index0));
    tx.write(&mut pio.regs, 5);
    assert_eq!(pio.regs.unit0.tx, vec![2, 3, 4, 5]);
    assert_eq!(pio.regs.events.len(), 0);
}

#[test]
fn blocking_read_waits_for_scripted_word() {
    let mut pio = Pio::get(PioID::Pio0);
    let s = pio.state(Slot::Index1).unwrap();
    let s = Config::new().configure(s, &mut pio.regs);
    let rx = s.m.rx_u32();
    assert!(rx.is_empty(&pio.regs));
    assert_eq!(rx.try_read(&mut pio.regs), None);
    pio.regs.push_event(HwEvent::Idle);
    pio.regs.push_event(HwEvent::RxGive(Slot::Index1, 99));
    let w = rx.read(&mut pio.regs);
    assert_eq!(w, 99);
    assert!(rx.is_empty(&pio.regs));
}

#[test]
fn typed_endpoints_truncate() {
    let mut pio = Pio::get(PioID::Pio0);
    let s = pio.state(Slot::Index0).unwrap();
    let s = Config::new().configure(s, &mut pio.regs);
    let tx8 = s.m.tx_u8();
    tx8.try_write(&mut pio.regs, 0xAB).unwrap();
    assert_eq!(pio.regs.unit0.tx, vec![0xAB]);
    let rx16 = s.m.rx_u16();
    pio.regs.unit1.rx.clear();
    pio.regs.unit0.rx.push(0x1234_5678);
    assert_eq!(rx16.try_read(&mut pio.regs), Some(0x5678));
}

#[test]
fn fifo_join_changes_depth() {
    let mut pio = Pio::get(PioID::Pio0);
    let s = pio.state(Slot::Index0).unwrap();
    let s = Config::new()
        .fifo_alloc(pico_hal::pio::config::Fifo::Tx)
        .configure(s, &mut pio.regs);
    let tx = s.m.tx_u32();
    for w in 0..8u32 {
        tx.try_write(&mut pio.regs, w).unwrap();
    }
    assert!(tx.is_full(&pio.regs));
    let rx = s.m.rx_u32();
    assert!(rx.is_full(&pio.regs));
}

#[test]
fn dreq_and_addresses_follow_block_and_unit() {
    let mut pio = Pio::get(PioID::Pio1);
    let s = pio.state(Slot::Index2).unwrap();
    let s = Config::new().configure(s, &mut pio.regs);
    let tx = s.m.tx_u32();
    let rx = s.m.rx_u32();
    assert_eq!(tx.dreq(), 8 + 2);
    assert_eq!(rx.dreq(), 12 + 2);
    assert_eq!(tx.address(), 0x5030_0010 + 8);
    assert_eq!(rx.address(), 0x5030_0020 + 8);
}

#[test]
fn interrupt_view_masks_and_forces() {
    let mut pio = Pio::get(PioID::Pio0);
    // At reset every transmit FIFO has room and no receive FIFO has data.
    let view = pio.irq0();
    assert_eq!(view.raw(&pio.regs).0, 0x0000_00F0);
    assert!(view.raw(&pio.regs).tx_not_empty_sm0());
    assert!(!view.raw(&pio.regs).rx_not_empty_sm0());
    // Nothing is enabled, so the latched view is quiet.
    assert_eq!(view.state(&pio.regs).0, 0);
    // Force a unit flag and enable it.
    pio.irq_force(0b0001);
    assert_eq!(pio.irq_flags(), 1);
    assert_eq!(view.raw(&pio.regs).0, 0x0000_01F0);
    view.set_interrupt(&mut pio.regs, pico_hal::pio::irq::InterruptIndex::Num0, true);
    assert_eq!(view.state(&pio.regs).0, 0x0000_0100);
    assert!(view.state(&pio.regs).sm0());
    assert!(!view.state(&pio.regs).sm1());
    // Clear the flag again.
    pio.irq_clear(0b0001);
    assert_eq!(pio.irq_flags(), 0);
    assert_eq!(view.state(&pio.regs).0, 0);
    let _ = Request::Irq0;
}

#[test]
fn pin_forcing_restores_registers() {
    let mut pio = Pio::get(PioID::Pio0);
    let s = pio.state(Slot::Index0).unwrap();
    let s = Config::new().configure(s, &mut pio.regs);
    let before_pinctrl = pio.regs.unit0.pinctrl;
    let before_execctrl = pio.regs.unit0.execctrl;
    let m = s.m;
    m.set_pin_state(
        &mut pio.regs,
        pico_hal::pin::PinState::High,
        pico_hal::pin::PinID::Pin7,
    );
    // The injected SET word remains visible; everything else is restored.
    assert_eq!(pio.regs.unit0.instr, 0xE001);
    assert_eq!(pio.regs.unit0.pinctrl, before_pinctrl);
    assert_eq!(pio.regs.unit0.execctrl, before_execctrl);
    assert_eq!(pio.regs.ctrl & 1, 0);
    m.set_pin_direction(
        &mut pio.regs,
        pico_hal::pin::PinDirection::Out,
        pico_hal::pin::PinID::Pin7,
    );
    assert_eq!(pio.regs.unit0.instr, 0xE081);
}

#[test]
fn scratch_and_jump_primitives() {
    let mut pio = Pio::get(PioID::Pio0);
    let s = pio.state(Slot::Index3).unwrap();
    let s = Config::new().configure(s, &mut pio.regs);
    let m = s.m;
    m.set_x(&mut pio.regs, 0xDEAD_BEEF);
    assert_eq!(m.x(&mut pio.regs), 0xDEAD_BEEF);
    m.set_y(&mut pio.regs, 0x1234);
    assert_eq!(m.y(&mut pio.regs), 0x1234);
    m.jump(&mut pio.regs, 17);
    assert_eq!(m.pc(&pio.regs), 17);
    m.set_clock_div(&mut pio.regs, 2, 128);
    assert_eq!(pio.regs.unit3.clkdiv, 0x0002_8000);
    m.restart(&mut pio.regs);
    assert_eq!(pio.regs.last_restart, 0b1000);
}
