//! Tests of the typed layer: the marker types steer the peripheral through
//! the same dynamic core, and the run-time guards provably never fire.

use timer_hal::bitmode::{BitWidth, W08, W24, W32};
use timer_hal::interrupts::{Disabled, IS4, IS6};
use timer_hal::mode::{Counter as CounterMode, Mode, Timer as TimerMode};
use timer_hal::prescaler::{Prescale, P0, P2};
use timer_hal::regs::{RegWrite, Regs};
use timer_hal::state::{Run, Stopped};
use timer_hal::timer::Timer;
use timer_hal::variant::Variant;

type Clear4 = IS4<Disabled, Disabled, Disabled, Disabled>;
type Clear6 = IS6<Disabled, Disabled, Disabled, Disabled, Disabled, Disabled>;

#[test]
fn typed_scenario_four_channel_timer() {
    let t = Timer::<Stopped, W32, Clear4, TimerMode<P0>>::timer(Regs::power_on(Variant::Basic));
    let t = t.set_counterwidth::<W24>();
    let t = t.set_prescale::<P0>();
    let mut t = t;
    t.compare_against_0(0);
    let t = t.enable_interrupt_0();
    let t = t.start();
    let p = t.peripheral();
    assert_eq!(p.run_state(), Run::Started);
    assert_eq!(p.width(), BitWidth::W24);
    assert_eq!(p.is_enabled(0), Ok(true));
    for i in 1..4 {
        assert_eq!(p.is_enabled(i), Ok(false));
    }
}

#[test]
fn typed_counter_wraps_at_width_8() {
    let t = Timer::<Stopped, W32, Clear4, CounterMode>::counter(Regs::power_on(Variant::Basic));
    let t = t.set_counterwidth::<W08>();
    let mut t = t.start();
    for _ in 0..256 {
        t.tick();
    }
    assert_eq!(t.peripheral().count(), 0);
    t.tick();
    assert_eq!(t.peripheral().count(), 1);
}

#[test]
fn typed_six_channel_counter() {
    let t = Timer::<Stopped, W32, Clear6, CounterMode>::counter(Regs::power_on(Variant::Extended));
    let mut t = t.start();
    t.tick();
    t.tick();
    let p = t.peripheral();
    assert_eq!(p.count(), 2);
    assert_eq!(p.channel_count(), 6);
}

#[test]
fn typed_enable_then_disable_round_trip() {
    let t = Timer::<Stopped, W32, Clear4, CounterMode>::counter(Regs::power_on(Variant::Basic));
    let t = t.enable_interrupt_2();
    assert_eq!(t.peripheral().is_enabled(2), Ok(true));
    let t = t.disable_interrupt_2();
    for i in 0..4 {
        assert_eq!(t.peripheral().is_enabled(i), Ok(false));
    }
}

#[test]
fn typed_prescale_change_updates_mode() {
    let t = Timer::<Stopped, W32, Clear4, TimerMode<P0>>::timer(Regs::power_on(Variant::Basic));
    let t = t.set_prescale::<P2>();
    assert_eq!(t.peripheral().mode(), Mode::Timer(Prescale::P2));
    let log = t.peripheral().writes();
    assert_eq!(log[log.len() - 1], RegWrite::PrescalerField(2));
}

#[test]
fn typed_blinky_like_flow() {
    // One timer toggling work, one counter counting the toggles, as the
    // classic two-block LED example wires them up.
    let timer = Timer::<Stopped, W32, Clear4, TimerMode<P0>>::timer(
        Regs::power_on(Variant::Basic),
    );
    let timer = timer.set_prescale::<P0>();
    let mut timer = timer.set_counterwidth::<W24>();

    let counter = Timer::<Stopped, W32, Clear4, CounterMode>::counter(
        Regs::power_on(Variant::Basic),
    );
    let mut counter = counter.set_counterwidth::<W08>();

    timer.compare_against_0(0);
    let timer = timer.enable_interrupt_0();
    counter.compare_against_0(4);
    let counter = counter.enable_interrupt_0();

    let mut timer = timer.start();
    let mut counter = counter.start();

    // The timer's interrupt handler: unpend, then tick the counter.
    timer.unpend_interrupt_0();
    counter.tick();
    assert_eq!(counter.peripheral().count(), 1);

    // The counter's interrupt handler: unpend and clear.
    counter.unpend_interrupt_0();
    counter.reset();
    assert_eq!(counter.peripheral().count(), 0);
    assert_eq!(timer.peripheral().run_state(), Run::Started);
    assert_eq!(counter.peripheral().run_state(), Run::Started);
}

#[test]
fn typed_stop_returns_to_stopped() {
    let t = Timer::<Stopped, W32, Clear4, CounterMode>::counter(Regs::power_on(Variant::Basic));
    let mut t = t.start();
    t.tick();
    let t = t.stop();
    let p = t.peripheral();
    assert_eq!(p.run_state(), Run::Stopped);
    assert_eq!(p.count(), 1);
}

#[test]
fn typed_constructor_journal_matches_choreography() {
    let t = Timer::<Stopped, W32, Clear4, TimerMode<P0>>::timer(Regs::power_on(Variant::Basic));
    assert_eq!(
        *t.peripheral().writes(),
        vec![
            RegWrite::TaskStop,
            RegWrite::Bitmode(3),
            RegWrite::IntenClrAll,
            RegWrite::ClearEvent(0),
            RegWrite::ClearEvent(1),
            RegWrite::ClearEvent(2),
            RegWrite::ClearEvent(3),
            RegWrite::ModeField(0),
            RegWrite::PrescalerField(0),
        ]
    );
}
