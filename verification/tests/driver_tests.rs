//! Tests of the dynamic driver layer: construction, guards, channel
//! independence, index bounds, wraparound and the write journal.

use timer_hal::bitmode::BitWidth;
use timer_hal::channels::Channel;
use timer_hal::driver::{DriverError, Peripheral};
use timer_hal::mode::Mode;
use timer_hal::prescaler::Prescale;
use timer_hal::regs::{RegWrite, Regs};
use timer_hal::state::Run;
use timer_hal::variant::Variant;

fn dirty_block(n: usize) -> Regs {
    let chans = vec![Channel { compare: 5, pending: true, enabled: true }; n];
    Regs::with_state(true, BitWidth::W8, Prescale::P9, true, 77, chans).unwrap()
}

#[test]
fn timer_reset_invariant_from_dirty_block() {
    let p = Peripheral::timer(dirty_block(4));
    assert_eq!(p.run_state(), Run::Stopped);
    assert_eq!(p.width(), BitWidth::W32);
    assert_eq!(p.mode(), Mode::Timer(Prescale::P0));
    assert_eq!(p.channel_count(), 4);
    for i in 0..4 {
        assert_eq!(p.is_enabled(i), Ok(false));
        assert_eq!(p.is_pending(i), Ok(false));
        assert_eq!(p.compare_value(i), Ok(5));
    }
    assert_eq!(p.count(), 77);
}

#[test]
fn counter_reset_invariant_from_dirty_block() {
    let p = Peripheral::counter(dirty_block(6));
    assert_eq!(p.run_state(), Run::Stopped);
    assert_eq!(p.width(), BitWidth::W32);
    assert_eq!(p.mode(), Mode::Counter);
    assert_eq!(p.channel_count(), 6);
    for i in 0..6 {
        assert_eq!(p.is_enabled(i), Ok(false));
        assert_eq!(p.is_pending(i), Ok(false));
    }
}

#[test]
fn timer_reset_choreography_journal() {
    let p = Peripheral::timer(Regs::power_on(Variant::Basic));
    assert_eq!(
        *p.writes(),
        vec![
            RegWrite::TaskStop,
            RegWrite::Bitmode(3),
            RegWrite::IntenClrAll,
            RegWrite::ClearEvent(0),
            RegWrite::ClearEvent(1),
            RegWrite::ClearEvent(2),
            RegWrite::ClearEvent(3),
            RegWrite::ModeField(0),
            RegWrite::PrescalerField(0),
        ]
    );
}

#[test]
fn counter_reset_choreography_journal() {
    let p = Peripheral::counter(Regs::power_on(Variant::Extended));
    assert_eq!(
        *p.writes(),
        vec![
            RegWrite::TaskStop,
            RegWrite::Bitmode(3),
            RegWrite::IntenClrAll,
            RegWrite::ClearEvent(0),
            RegWrite::ClearEvent(1),
            RegWrite::ClearEvent(2),
            RegWrite::ClearEvent(3),
            RegWrite::ClearEvent(4),
            RegWrite::ClearEvent(5),
            RegWrite::ModeField(1),
        ]
    );
}

#[test]
fn width_and_prescale_succeed_while_stopped() {
    let mut p = Peripheral::timer(Regs::power_on(Variant::Basic));
    assert_eq!(p.set_width(BitWidth::W24), Ok(()));
    assert_eq!(p.width(), BitWidth::W24);
    assert_eq!(p.set_prescale(Prescale::P7), Ok(()));
    assert_eq!(p.mode(), Mode::Timer(Prescale::P7));
}

#[test]
fn width_and_prescale_rejected_while_started() {
    let mut p = Peripheral::timer(Regs::power_on(Variant::Basic));
    assert_eq!(p.start(), Ok(()));
    assert_eq!(p.set_width(BitWidth::W8), Err(DriverError::IllegalTransition));
    assert_eq!(p.width(), BitWidth::W32);
    assert_eq!(p.set_prescale(Prescale::P3), Err(DriverError::IllegalTransition));
    assert_eq!(p.mode(), Mode::Timer(Prescale::P0));
}

#[test]
fn prescale_rejected_in_counter_mode() {
    let mut p = Peripheral::counter(Regs::power_on(Variant::Basic));
    assert_eq!(p.set_prescale(Prescale::P1), Err(DriverError::IllegalTransition));
    assert_eq!(p.mode(), Mode::Counter);
}

#[test]
fn prescale_rejection_leaves_journal_untouched() {
    let mut p = Peripheral::timer(Regs::power_on(Variant::Basic));
    assert_eq!(p.start(), Ok(()));
    let before = p.writes().clone();
    assert_eq!(p.set_prescale(Prescale::P5), Err(DriverError::IllegalTransition));
    assert_eq!(*p.writes(), before);
    assert_eq!(p.mode(), Mode::Timer(Prescale::P0));
}

#[test]
fn tick_succeeds_only_in_started_counter_mode() {
    let mut counter = Peripheral::counter(Regs::power_on(Variant::Basic));
    assert_eq!(counter.tick(), Err(DriverError::IllegalTransition));
    assert_eq!(counter.start(), Ok(()));
    assert_eq!(counter.tick(), Ok(()));
    assert_eq!(counter.count(), 1);

    let mut timer = Peripheral::timer(Regs::power_on(Variant::Basic));
    assert_eq!(timer.tick(), Err(DriverError::IllegalTransition));
    assert_eq!(timer.start(), Ok(()));
    assert_eq!(timer.tick(), Err(DriverError::IllegalTransition));
    assert_eq!(timer.count(), 0);
}

#[test]
fn start_and_stop_guard_run_state() {
    let mut p = Peripheral::counter(Regs::power_on(Variant::Basic));
    assert_eq!(p.stop(), Err(DriverError::IllegalTransition));
    assert_eq!(p.start(), Ok(()));
    assert_eq!(p.start(), Err(DriverError::IllegalTransition));
    assert_eq!(p.run_state(), Run::Started);
    assert_eq!(p.stop(), Ok(()));
    assert_eq!(p.run_state(), Run::Stopped);
}

#[test]
fn stop_keeps_count_and_reset_clears_it() {
    let mut p = Peripheral::counter(Regs::power_on(Variant::Basic));
    assert_eq!(p.start(), Ok(()));
    for _ in 0..5 {
        assert_eq!(p.tick(), Ok(()));
    }
    assert_eq!(p.stop(), Ok(()));
    assert_eq!(p.count(), 5);
    p.reset();
    assert_eq!(p.count(), 0);
}

#[test]
fn channel_independence_on_both_variants() {
    for variant in [Variant::Basic, Variant::Extended] {
        let n = variant.channel_count();
        for i in 0..n {
            let mut p = Peripheral::counter(Regs::power_on(variant));
            assert_eq!(p.compare_against(i, 9), Ok(()));
            assert_eq!(p.enable_interrupt(i), Ok(()));
            for k in 0..n {
                assert_eq!(p.is_enabled(k), Ok(k == i));
                assert_eq!(p.is_pending(k), Ok(false));
            }
            assert_eq!(p.disable_interrupt(i), Ok(()));
            for k in 0..n {
                assert_eq!(p.is_enabled(k), Ok(false));
                assert_eq!(p.is_pending(k), Ok(false));
            }
        }
    }
}

#[test]
fn enable_twice_is_a_harmless_repeat() {
    let mut p = Peripheral::counter(Regs::power_on(Variant::Basic));
    assert_eq!(p.enable_interrupt(2), Ok(()));
    assert_eq!(p.enable_interrupt(2), Ok(()));
    assert_eq!(p.is_enabled(2), Ok(true));
    let log = p.writes();
    assert_eq!(log[log.len() - 2..], [RegWrite::IntenSet(2), RegWrite::IntenSet(2)]);
}

#[test]
fn index_bound_rejected_at_and_beyond_channel_count() {
    for variant in [Variant::Basic, Variant::Extended] {
        let n = variant.channel_count();
        let mut p = Peripheral::counter(Regs::power_on(variant));
        for i in 0..n {
            assert_eq!(p.enable_interrupt(i), Ok(()));
            assert_eq!(p.disable_interrupt(i), Ok(()));
            assert_eq!(p.unpend_interrupt(i), Ok(()));
            assert_eq!(p.compare_against(i, 1), Ok(()));
        }
        for i in [n, n + 1, usize::MAX] {
            assert_eq!(p.enable_interrupt(i), Err(DriverError::ChannelOutOfRange));
            assert_eq!(p.disable_interrupt(i), Err(DriverError::ChannelOutOfRange));
            assert_eq!(p.unpend_interrupt(i), Err(DriverError::ChannelOutOfRange));
            assert_eq!(p.compare_against(i, 1), Err(DriverError::ChannelOutOfRange));
            assert_eq!(p.is_enabled(i), Err(DriverError::ChannelOutOfRange));
            assert_eq!(p.is_pending(i), Err(DriverError::ChannelOutOfRange));
            assert_eq!(p.compare_value(i), Err(DriverError::ChannelOutOfRange));
        }
    }
}

#[test]
fn index_rejection_writes_nothing() {
    let mut p = Peripheral::counter(Regs::power_on(Variant::Basic));
    let before = p.writes().clone();
    assert_eq!(p.enable_interrupt(4), Err(DriverError::ChannelOutOfRange));
    assert_eq!(p.compare_against(7, 3), Err(DriverError::ChannelOutOfRange));
    assert_eq!(*p.writes(), before);
}

#[test]
fn overflow_wraparound_at_width_8() {
    let mut p = Peripheral::counter(Regs::power_on(Variant::Extended));
    assert_eq!(p.set_width(BitWidth::W8), Ok(()));
    assert_eq!(p.start(), Ok(()));
    for _ in 0..255 {
        assert_eq!(p.tick(), Ok(()));
    }
    assert_eq!(p.count(), 255);
    assert_eq!(p.tick(), Ok(()));
    assert_eq!(p.count(), 0);
}

#[test]
fn compare_match_latches_pending() {
    let mut p = Peripheral::counter(Regs::power_on(Variant::Basic));
    assert_eq!(p.set_width(BitWidth::W8), Ok(()));
    assert_eq!(p.compare_against(1, 3), Ok(()));
    assert_eq!(p.compare_against(2, 259), Ok(()));
    assert_eq!(p.start(), Ok(()));
    for _ in 0..2 {
        assert_eq!(p.tick(), Ok(()));
    }
    assert_eq!(p.is_pending(1), Ok(false));
    assert_eq!(p.tick(), Ok(()));
    assert_eq!(p.is_pending(1), Ok(true));
    // 259 is 3 past the 8-bit modulus: the unused high bits are ignored.
    assert_eq!(p.is_pending(2), Ok(true));
    assert_eq!(p.is_pending(0), Ok(false));
    assert_eq!(p.is_enabled(1), Ok(false));
    assert_eq!(p.unpend_interrupt(1), Ok(()));
    assert_eq!(p.is_pending(1), Ok(false));
    assert_eq!(p.is_pending(2), Ok(true));
}

#[test]
fn compare_value_round_trips() {
    let mut p = Peripheral::timer(Regs::power_on(Variant::Basic));
    assert_eq!(p.compare_against(3, 0xDEAD_BEEF), Ok(()));
    assert_eq!(p.compare_value(3), Ok(0xDEAD_BEEF));
    assert_eq!(p.start(), Ok(()));
    assert_eq!(p.compare_against(3, 7), Ok(()));
    assert_eq!(p.compare_value(3), Ok(7));
}

#[test]
fn with_state_accepts_only_catalog_shapes() {
    for n in [0, 1, 3, 5, 7, 8] {
        let chans = vec![Channel { compare: 0, pending: false, enabled: false }; n];
        assert!(Regs::with_state(false, BitWidth::W32, Prescale::P0, false, 0, chans).is_none());
    }
    let four = vec![Channel { compare: 0, pending: false, enabled: false }; 4];
    let r = Regs::with_state(false, BitWidth::W32, Prescale::P0, false, 0, four).unwrap();
    assert_eq!(r.variant(), Variant::Basic);
    let six = vec![Channel { compare: 0, pending: false, enabled: false }; 6];
    let r = Regs::with_state(false, BitWidth::W32, Prescale::P0, false, 0, six).unwrap();
    assert_eq!(r.variant(), Variant::Extended);
}

#[test]
fn width_table_encodings() {
    assert_eq!(BitWidth::W16.encoding(), 0);
    assert_eq!(BitWidth::W8.encoding(), 1);
    assert_eq!(BitWidth::W24.encoding(), 2);
    assert_eq!(BitWidth::W32.encoding(), 3);
    assert_eq!(BitWidth::W8.bits(), 8);
    assert_eq!(BitWidth::W16.bits(), 16);
    assert_eq!(BitWidth::W24.bits(), 24);
    assert_eq!(BitWidth::W32.bits(), 32);
    assert_eq!(BitWidth::W8.modulus(), 256);
    assert_eq!(BitWidth::W16.modulus(), 0x1_0000);
    assert_eq!(BitWidth::W24.modulus(), 0x100_0000);
    assert_eq!(BitWidth::W32.modulus(), 0x1_0000_0000);
}

#[test]
fn prescale_table_encodings() {
    assert_eq!(Prescale::P0.encoding(), 0);
    assert_eq!(Prescale::P7.encoding(), 7);
    assert_eq!(Prescale::P15.encoding(), 15);
}

#[test]
fn variant_catalog_channel_counts() {
    assert_eq!(Variant::Basic.channel_count(), 4);
    assert_eq!(Variant::Extended.channel_count(), 6);
}
