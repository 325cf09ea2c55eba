//! Tests of the pin, PWM, ADC, watchdog, generator, mailbox, interpolator
//! and calendar drivers.

use pico_hal::atomic::{with, Mutex};
use pico_hal::clock::alarm::{Alarm, AlarmID};
use pico_hal::clock::rtc::RtcClock;
use pico_hal::clock::sys::{Clock, Timer};
use pico_hal::clock::{AlarmConfig, RtcError};
use pico_hal::fifo::Fifo;
use pico_hal::interp::{Interpoler, LaneConfig, Num0};
use pico_hal::pin::adc::{AdcFifoBuilder, AdcPin};
use pico_hal::pin::led::{Led, LedPwm};
use pico_hal::pin::pwm::PwmID;
use pico_hal::pin::{Input, Output, Pin, PinID, PinInterrupt, PinPull, PinSlew, PinStrength};
use pico_hal::rand::Rand;
use pico_hal::time::{Month, Time, Weekday};
use pico_hal::watchdog::{Scratch, Watchdog};

#[test]
fn pin_levels_and_pulls() {
    let mut p: Pin<Output> = Pin::get(PinID::Pin5);
    assert!(p.is_set_low());
    p.high();
    assert!(p.is_set_high());
    p.toggle();
    assert!(p.is_set_low());
    p.set_on(true);
    assert!(p.is_set_high());
    p.set_pull_type(PinPull::Up);
    assert_eq!(p.pull_type(), PinPull::Up);
    p.set_pull_type(PinPull::Floating);
    assert_eq!(p.pull_type(), PinPull::Floating);
    p.set_slew(PinSlew::Fast);
    assert_eq!(p.get_slew(), PinSlew::Fast);
    p.set_drive(PinStrength::Drive8ma);
    assert_eq!(p.get_strength(), PinStrength::Drive8ma);
}

#[test]
fn pin_numbers_round_trip() {
    assert_eq!(PinID::try_from(7).unwrap(), PinID::Pin7);
    assert_eq!(PinID::try_from(29).unwrap(), PinID::Pin29);
    assert!(PinID::try_from(30).is_err());
}

#[test]
fn pin_interrupt_bits() {
    let mut p: Pin<Output> = Pin::get(PinID::Pin9);
    p.interrupt_set(PinInterrupt::EdgeHigh, true);
    assert!(p.interrupt_enabled(PinInterrupt::EdgeHigh));
    assert!(!p.interrupt_enabled(PinInterrupt::All));
    p.interrupt_set(PinInterrupt::All, true);
    assert!(p.interrupt_enabled(PinInterrupt::All));
    p.pad.ints = 0xF;
    assert!(p.interrupt_status(PinInterrupt::EdgeLow));
    p.interrupt_clear(PinInterrupt::EdgeLow);
    assert!(!p.interrupt_status(PinInterrupt::EdgeLow));
    assert!(p.interrupt_status(PinInterrupt::High));
}

#[test]
fn pin_direction_conversions() {
    let p: Pin<Output> = Pin::get(PinID::Pin8);
    let i: Pin<Input> = p.into_input();
    assert!(i.get_state());
    assert!(!i.is_high());
    let mut i = i;
    i.pad.in_level = true;
    assert!(i.is_high());
    let _o: Pin<Output> = i.into_output();
}

#[test]
fn input_pwm_only_on_odd_pins() {
    let even: Pin<Input> = Pin::get(PinID::Pin8).into_input();
    assert!(!even.is_pwm_avaliable());
    assert!(even.into_pwm().is_none());
    let odd: Pin<Input> = Pin::get(PinID::Pin3).into_input();
    assert!(odd.is_pwm_avaliable());
    let pwm = odd.into_pwm().unwrap();
    assert_eq!(*pwm.id(), PwmID::Pwm1B);
}

#[test]
fn pwm_duty_parks_and_restores() {
    let mut pwm = Pin::get(PinID::Pin4).into_pwm();
    assert_eq!(*pwm.id(), PwmID::Pwm2A);
    assert_eq!(pwm.get_max_duty(), 0xFFFF);
    pwm.set_duty(1234);
    assert_eq!(pwm.ch.cc_a, 1234);
    pwm.set_state(false);
    assert_eq!(pwm.ch.cc_a, 0);
    assert_eq!(pwm.get_duty(), 1234);
    pwm.set_state(true);
    assert_eq!(pwm.ch.cc_a, 1234);
    pwm.set_top(999);
    assert_eq!(pwm.get_max_duty(), 1000);
    pwm.high();
    assert_eq!(pwm.ch.cc_a, 1000);
    pwm.low();
    assert_eq!(pwm.ch.cc_a, 0);
}

#[test]
fn pwm_interrupts_and_counter() {
    let mut pwm = Pin::get(PinID::Pin15).into_pwm();
    assert_eq!(*pwm.id(), PwmID::Pwm7B);
    pwm.set_counter(55);
    assert_eq!(pwm.get_counter(), 55);
    pwm.interrupt_set(true);
    assert!(pwm.ch.inte);
    pwm.ch.intr = true;
    assert!(pwm.is_overflown());
    pwm.interrupt_clear();
    assert!(!pwm.is_overflown());
    pwm.set_div_int(3);
    pwm.set_div_frac(8);
    assert_eq!(pwm.ch.div_int, 3);
    assert_eq!(pwm.ch.div_frac, 8);
}

#[test]
fn adc_channels_and_fifo() {
    let p: Pin<Input> = Pin::get(PinID::Pin26).into_input();
    let mut a = AdcPin::new(p).unwrap();
    a.start_free_running();
    assert!(!a.adc.start_many == false);
    a.stop_free_running();
    assert!(!a.adc.start_many);
    let bad: Pin<Input> = Pin::get(PinID::Pin5).into_input();
    assert!(AdcPin::new(bad).is_err());

    let b = AdcFifoBuilder::new();
    let mut f = b.start_paused(true);
    f.adc.fifo.push(100);
    f.adc.fifo.push(200);
    assert_eq!(f.len(), 2);
    assert_eq!(f.read(), 100);
    f.clear();
    assert_eq!(f.len(), 0);
    f.adc.over = true;
    assert!(f.is_overrun());
    assert!(!f.is_overrun());
    f.resume();
    assert!(!f.is_paused());
    f.pause();
    assert!(f.is_paused());
}

#[test]
fn adc_byte_fifo_shifts() {
    let f8 = AdcFifoBuilder::new().shift();
    let mut f = f8.start();
    f.adc.fifo.push(0x0234);
    assert_eq!(f.read(), 0x34);
}

#[test]
fn watchdog_arms_with_doubled_deadline() {
    let mut w = Watchdog::new(125_000_000);
    assert_eq!(w.tick, 125);
    assert!(!w.is_ticking());
    w.start(5);
    assert!(w.enable);
    assert!(w.is_ticking());
    assert_eq!(w.value, 10_000);
    assert_eq!(w.load, 10_000);
    w.disable();
    assert!(!w.enable);
    w.restart_us(100);
    assert_eq!(w.value, 200);
    // The deadline clamps at the counter's width.
    w.start_us(0xFFFF_FFFF);
    assert_eq!(w.value, 0x7FFFFF * 2);
    w.write_scratch(Scratch::Register3, 0xABCD);
    assert_eq!(w.read_scratch(Scratch::Register3), 0xABCD);
    assert_eq!(w.read_scratch(Scratch::Register0), 0);
    assert_eq!(w.countdown(), 125);
}

#[test]
fn rand_streams_are_reproducible() {
    let mut a = Rand::with_seed(42);
    let mut b = Rand::with_seed(42);
    let x = a.rand_u32();
    assert_eq!(x, b.rand_u32());
    assert_eq!(a.rand_u32(), b.rand_u32());
    let mut c = Rand::with_seed(42);
    let bytes = c.rand();
    assert_eq!(
        bytes,
        [(x >> 24) as u8, (x >> 16) as u8, (x >> 8) as u8, x as u8]
    );
    let mut d = Rand::new();
    assert_eq!(d.0, 0);
    d.set_seed(42);
    assert_eq!(d.rand_u32(), x);
    // Two consecutive draws differ for this seed.
    let mut e = Rand::with_seed(42);
    let first = e.rand_u32();
    let second = e.rand_u32();
    assert_ne!(first, second);
}

#[test]
fn mailbox_queues_and_flags() {
    let mut f = Fifo::get();
    assert!(!f.is_read_ready());
    assert!(f.is_write_ready());
    assert_eq!(f.status(), 2);
    for w in 0..8u32 {
        assert!(f.write(w));
    }
    assert!(!f.write(8));
    assert!(!f.is_write_ready());
    assert_eq!(f.status(), 0);
    f.rx.push(7);
    f.rx.push(9);
    assert_eq!(f.status(), 1);
    assert_eq!(f.read(), Some(7));
    assert_eq!(f.read_block(), 9);
    assert_eq!(f.read(), None);
    f.rx.push(1);
    f.drain();
    assert!(!f.is_read_ready());
}

#[test]
fn mutex_guards_a_value() {
    let mut m = Mutex::new(5u32);
    let r = with(|s| *m.borrow(s));
    assert_eq!(r, 5);
    let old = m.replace(with(|s| s), 9);
    assert_eq!(old, 5);
    assert_eq!(m.into_inner(), 9);
    let mut m2 = Mutex::new(3u32);
    let s = with(|s| s);
    assert_eq!(*m2.borrow_ref(s), 3);
    *m2.borrow_ref_mut(s) = 4;
    let taken = m2.take(s);
    assert_eq!(taken, 4);
    assert_eq!(*m2.get_mut(), 0);
    let old = m2.replace_with(s, |v| v + 10);
    assert_eq!(old, 0);
    assert_eq!(m2.v, 10);
}

#[test]
fn interpolator_shifts_and_masks() {
    let mut ip: Interpoler<Num0> = Interpoler::<Num0>::get();
    let lane = ip.lane0();
    let ctrl = LaneConfig::new().shift(4).as_ctrl();
    lane.ctrl_set(ctrl);
    lane.accumulator_set(0x100);
    assert_eq!(lane.read(), 0x10);
    lane.base_set(5);
    assert_eq!(lane.peek(), 0x15);
    let popped = lane.pop();
    assert_eq!(popped, 0x15);
    assert_eq!(lane.accumulator(), 0x15);
    lane.add(0xFFFF_FFFF);
    assert_eq!(lane.accumulator(), 0x14);
    let lane1 = ip.lane1();
    assert_eq!(lane1.ctrl(), 0);
}

#[test]
fn lane_config_builds_control_words() {
    assert_eq!(LaneConfig::new().as_ctrl(), 0x1F << 10);
    assert_eq!(LaneConfig::new().shift(3).as_ctrl(), (0x1F << 10) | 3);
    assert_eq!(
        LaneConfig::new().clamp(true).signed(true).as_ctrl(),
        0x40_0000 | (0x1F << 10) | 0x8000
    );
    assert_eq!(
        LaneConfig::new().lsb_mask(2).msb_mask(7).blend(true).as_ctrl(),
        0x20_0000 | (7 << 10) | (2 << 5)
    );
}

#[test]
fn calendar_values_validate() {
    let t = Time::new(2024, Month::June, 10, 12, 30, 45, Weekday::Monday);
    assert!(t.is_valid());
    let z = Time::zero();
    assert!(!z.is_valid());
    assert!(z.month.is_none());
    let e = Time::empty();
    assert!(e.is_valid());
    assert_eq!(e.day, 1);
    let label = Month::June.map_or(0u8, |_| 6u8);
    assert_eq!(label, 6);
    let none = Month::Unset.map_or(0u8, |_| 6u8);
    assert_eq!(none, 0);
    assert!(Weekday::Unset.is_none());
}

#[test]
fn alarm_config_builder() {
    let a = AlarmConfig::new();
    assert!(a.is_empty());
    assert!(a.is_valid());
    let a = a.day(15).hours(23).mins(59).secs(0);
    assert!(!a.is_empty());
    assert!(a.is_valid());
    assert_eq!(a.day, Some(15));
    let bad = AlarmConfig::new().day(40);
    assert!(!bad.is_valid());
    let unset = AlarmConfig::new().day(0).year(0);
    assert!(unset.day.is_none());
    assert!(unset.year.is_none());
    let m = AlarmConfig::new().month(Month::May).weekday(Weekday::Friday);
    assert!(m.is_empty() == false);
}

#[test]
fn leds_drive_their_pins() {
    let mut led = Led::get(PinID::Pin25);
    led.on();
    assert!(led.0.is_set_high());
    led.off();
    assert!(led.0.is_set_low());
    let mut dim = LedPwm::get(PinID::Pin25);
    dim.on();
    assert_eq!(dim.0.ch.cc_b, 0xFFFF);
    dim.off();
    assert_eq!(dim.0.ch.cc_b, 0);
    dim.brightness(50);
    assert_eq!(dim.0.ch.cc_b, (0xFFFF / 100) * 50);
}

#[test]
fn calendar_clock_reports_and_loads() {
    let mut rtc = RtcClock::new();
    assert_eq!(rtc.now(), Err(RtcError::NotRunning));
    let t = Time::new(2024, Month::June, 10, 12, 30, 45, Weekday::Monday);
    rtc.set_time(t).unwrap();
    assert!(rtc.is_running());
    assert_eq!(rtc.now(), Ok(t));
    let bad = Time::new(2024, Month::June, 40, 12, 30, 45, Weekday::Monday);
    assert_eq!(rtc.set_time(bad), Err(RtcError::InvalidTime));
    // Alarms: empty arms nothing, invalid is refused, valid arms.
    assert!(rtc.set_alarm(AlarmConfig::new()).is_ok());
    assert!(!rtc.match_ena);
    assert_eq!(
        rtc.set_alarm(AlarmConfig::new().day(40)),
        Err(RtcError::InvalidTime)
    );
    rtc.set_alarm(AlarmConfig::new().hours(6)).unwrap();
    assert!(rtc.match_ena);
    rtc.alarm_disable();
    assert!(!rtc.match_ena);
}

#[test]
fn timer_and_alarms_advance() {
    let mut t = Timer::new();
    t.sleep_ms(3);
    t.sleep_us(500);
    assert_eq!(t.current_tick(), 3_500);
    let c = Clock::new(125_000_000);
    assert_eq!(c.freq(), 125_000_000);
    assert_eq!(c.seed(), 0);
    assert!(!c.rtc().is_running());
    let mut a = Alarm::new(AlarmID::Alarm2);
    assert!(a.done());
    a.tick = 1_000;
    a.schedule(2);
    assert!(!a.done());
    assert_eq!(a.target, 3_000);
    a.cancel();
    assert!(a.done());
}
