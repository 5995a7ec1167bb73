use nrf51_hal::delay::{Delay, DelayRtc, DelayTimer};
use nrf51_hal::error::{OverValueError, TimerError, WouldBlock};
use nrf51_hal::hi_res_timer::{HiResTimer, TimerCc, TimerFrequency};
use nrf51_hal::lo_res_timer::{LoResTimer, RtcCc, RtcFrequency};
use nrf51_hal::peripheral::{RtcInstance, RtcPeripheral, TimerInstance, TimerPeripheral};
use nrf51_hal::time::{checked_multiply, significant_bits, Hertz, Hfticks, Lfticks, Micros, Millis, Overflow};
use nrf51_hal::timer::{CountDownRtc, CountDownTimer, Timer};
use nrf51_hal::width::{BitMode, TimerWidth, TooWide};

fn config_error(value: u32, upper_bound: u32) -> TimerError {
    TimerError::ConfigurationError(OverValueError { value, upper_bound })
}

#[test]
fn hfticks_conversions_are_exact() {
    assert_eq!(Hfticks::from_ms(1500).0, 24_000_000);
    assert_eq!(Hfticks::from_us(3).0, 48);
    assert_eq!(Hfticks::from_ms(u32::MAX).0, u32::MAX as u64 * 16_000);
    assert_eq!(Hfticks::from_duration(1, 500).map(|t| t.0), Some(16_000_008));
    assert_eq!(Hfticks::from_duration(1u64 << 32, 0).map(|t| t.0), None);
}

#[test]
fn lfticks_conversions_round_down() {
    assert_eq!(Lfticks::from_ms(1000).0, 32_768);
    assert_eq!(Lfticks::from_ms(1).0, 32);
    assert_eq!(Lfticks::from_us(100).0, 3);
    assert_eq!(Lfticks::from_us(30).0, 0);
}

#[test]
fn checked_multiply_boundary() {
    // 65537 * 65535 is exactly u32::MAX; 65536 * 65536 is one more.
    assert_eq!(checked_multiply(65537, Hertz(65535), 1), Ok(u32::MAX));
    assert_eq!(checked_multiply(65536, Hertz(65536), 1), Err(Overflow));
    assert_eq!(checked_multiply(u32::MAX, Hertz(1_000_000), 1_000_000), Ok(u32::MAX));
    assert_eq!(checked_multiply(999, Hertz(1000), 1_000_000), Ok(0));
}

#[test]
fn significant_bit_counts() {
    assert_eq!(significant_bits(0), 0);
    assert_eq!(significant_bits(1), 1);
    assert_eq!(significant_bits(1000), 10);
    assert_eq!(significant_bits(1 << 31), 32);
    assert_eq!(significant_bits(u32::MAX), 32);
}

#[test]
fn checked_multiply_rejects_up_front() {
    // 32 + 32 significant bits against a 1-bit divisor.
    assert_eq!(checked_multiply(u32::MAX, Hertz(u32::MAX), 1), Err(Overflow));
    // Close to the limit the exact check decides: 2^31 * 3 / 2 fits, 2^31 * 4 / 2 does not.
    assert_eq!(checked_multiply(1 << 31, Hertz(3), 2), Ok(3 << 30));
    assert_eq!(checked_multiply(1 << 31, Hertz(4), 2), Err(Overflow));
    assert_eq!(checked_multiply(u32::MAX, Hertz(u32::MAX), u32::MAX), Ok(u32::MAX));
}

#[test]
fn unit_to_ticks() {
    assert_eq!(Micros(1000).to_ticks(Hertz(1_000_000)), Ok(1000));
    assert_eq!(Millis(5000).to_ticks(Hertz(1_000_000)), Ok(5_000_000));
    assert_eq!(Millis(u32::MAX).to_ticks(Hertz(16_000_000)), Err(Overflow));
    assert_eq!(Micros(1).to_ticks(Hertz(32_768)), Ok(0));
}

#[test]
fn width_checked_narrowing() {
    assert_eq!(TimerWidth::U8.try_from_u32(255), Ok(255));
    assert_eq!(TimerWidth::U8.try_from_u32(256), Err(TooWide));
    assert_eq!(TimerWidth::U16.try_from_u32(65_535), Ok(65_535));
    assert_eq!(TimerWidth::U16.try_from_u32(65_536), Err(TooWide));
    assert_eq!(TimerWidth::U32.try_from_u32(u32::MAX), Ok(u32::MAX));
    assert_eq!(TimerWidth::U16.max_value(), 65_535);
    assert_eq!(TimerWidth::U8.bit_mode(), BitMode::_08bit);
    assert_eq!(BitMode::_16bit.code(), 0);
    assert_eq!(BitMode::_08bit.code(), 1);
    assert_eq!(BitMode::_24bit.code(), 2);
    assert_eq!(BitMode::_32bit.code(), 3);
    assert_eq!(BitMode::_24bit.max_value(), 16_777_215);
}

#[test]
fn register_indices() {
    assert_eq!(TimerCc::from_index(3), Ok(TimerCc::CC3));
    assert_eq!(TimerCc::from_index(4), Err(()));
    assert_eq!(RtcCc::from_index(0), Ok(RtcCc::CC0));
    assert_eq!(RtcCc::from_index(7), Err(()));
}

#[test]
fn timer_frequency_table() {
    assert_eq!(TimerFrequency::Freq1MHz.as_prescaler(), 4);
    assert_eq!(TimerFrequency::Freq1MHz.hertz(), Hertz(1_000_000));
    assert_eq!(TimerFrequency::Freq31250Hz.hertz(), Hertz(31_250));
    assert_eq!(TimerFrequency::from_prescaler(9), Ok(TimerFrequency::Freq31250Hz));
    assert_eq!(TimerFrequency::Freq1MHz.scale(16_000), Some(1000));
    assert_eq!(TimerFrequency::Freq16MHz.scale(1u64 << 32), None);
}

#[test]
fn prescaler_ten_is_a_configuration_error() {
    assert_eq!(TimerFrequency::from_prescaler(10), Err(config_error(10, 9)));
    let mut t = HiResTimer::as_16bit_timer(TimerPeripheral::new(TimerInstance::TIMER1));
    t.set_frequency(TimerFrequency::Freq2MHz);
    assert_eq!(t.set_prescaler(10), Err(config_error(10, 9)));
    assert_eq!(t.frequency(), TimerFrequency::Freq2MHz);
}

#[test]
fn frequency_read_back_matches_formula() {
    let mut t = HiResTimer::as_max_width_timer(TimerPeripheral::new(TimerInstance::TIMER0));
    for p in 0..=9u32 {
        for _ in 0..3 {
            assert_eq!(t.set_prescaler(p), Ok(()));
            let f = t.frequency();
            assert_eq!(f.as_prescaler(), p);
            assert_eq!(f.hertz(), Hertz(16_000_000 >> p));
        }
    }
    let mut rtc = LoResTimer::new(RtcPeripheral::new(RtcInstance::RTC1));
    for p in [0u32, 1, 327, 4095] {
        rtc.set_frequency(RtcFrequency::from_prescaler(p).unwrap());
        assert_eq!(rtc.frequency().as_prescaler(), p);
        assert_eq!(rtc.frequency().hertz(), Hertz(32_768 / (p + 1)));
    }
}

#[test]
fn hi_res_timer_construction_resets() {
    let mut p = TimerPeripheral::new(TimerInstance::TIMER2);
    p.running = true;
    p.counter = 77;
    p.prescaler = 9;
    p.ch1.event = true;
    p.ch3.short_stop = true;
    let t = HiResTimer::as_8bit_timer(p);
    assert_eq!(t.width(), TimerWidth::U8);
    assert_eq!(t.frequency(), TimerFrequency::Freq1MHz);
    let p = t.free();
    assert!(!p.running);
    assert_eq!(p.counter, 0);
    assert_eq!(p.bitmode, BitMode::_08bit);
    assert!(!p.ch1.event);
    assert!(!p.ch3.short_stop);
}

#[test]
fn compare_register_round_trip() {
    let mut t = HiResTimer::as_16bit_timer(TimerPeripheral::new(TimerInstance::TIMER1));
    for v in [0u32, 1, 1000, 65_535] {
        assert_eq!(t.set_compare_register(TimerCc::CC2, v), Ok(()));
        assert_eq!(t.captured_counter(TimerCc::CC2), v);
    }
    assert_eq!(t.set_compare_register(TimerCc::CC2, 65_536), Err(config_error(65_536, 65_535)));
    assert_eq!(t.captured_counter(TimerCc::CC2), 65_535);
    let mut t32 = HiResTimer::as_32bit_timer(TimerPeripheral::new(TimerInstance::TIMER0));
    assert_eq!(t32.set_compare_register(TimerCc::CC0, u32::MAX), Ok(()));
    assert_eq!(t32.captured_counter(TimerCc::CC0), u32::MAX);
}

#[test]
fn capture_stores_counter() {
    let mut t = HiResTimer::as_16bit_timer(TimerPeripheral::new(TimerInstance::TIMER1));
    t.start();
    t.advance(42);
    t.capture(TimerCc::CC1);
    assert_eq!(t.captured_counter(TimerCc::CC1), 42);
    t.stop();
    t.advance(10);
    t.capture(TimerCc::CC1);
    assert_eq!(t.captured_counter(TimerCc::CC1), 42);
    t.clear();
    t.capture(TimerCc::CC1);
    assert_eq!(t.captured_counter(TimerCc::CC1), 0);
}

#[test]
fn counter_wraps_at_its_width() {
    let mut t = HiResTimer::as_8bit_timer(TimerPeripheral::new(TimerInstance::TIMER1));
    t.start();
    t.advance(300);
    t.capture(TimerCc::CC0);
    assert_eq!(t.captured_counter(TimerCc::CC0), 44);
}

#[test]
fn hi_res_events_and_interrupts() {
    let mut t = HiResTimer::as_16bit_timer(TimerPeripheral::new(TimerInstance::TIMER2));
    assert_eq!(t.set_compare_register(TimerCc::CC3, 5), Ok(()));
    t.enable_compare_interrupt(TimerCc::CC3);
    t.start();
    t.advance(4);
    assert!(!t.read_compare_event(TimerCc::CC3));
    assert!(!t.poll_compare_event(TimerCc::CC3));
    t.advance(1);
    assert!(t.read_compare_event(TimerCc::CC3));
    assert!(t.poll_compare_event(TimerCc::CC3));
    assert!(!t.read_compare_event(TimerCc::CC3));
    t.disable_compare_interrupt(TimerCc::CC3);
    let p = t.free();
    assert!(!p.ch3.interrupt);
    assert!(!p.running);
}

#[test]
fn auto_stop_halts_on_match() {
    let mut t = HiResTimer::as_16bit_timer(TimerPeripheral::new(TimerInstance::TIMER1));
    assert_eq!(t.set_compare_register(TimerCc::CC1, 10), Ok(()));
    t.enable_auto_stop(TimerCc::CC1);
    t.start();
    t.advance(50);
    t.capture(TimerCc::CC2);
    assert_eq!(t.captured_counter(TimerCc::CC2), 10);
    assert!(t.read_compare_event(TimerCc::CC1));
    t.disable_auto_stop(TimerCc::CC1);
    let p = t.free();
    assert!(!p.ch1.short_stop);
}

#[test]
fn shortcut_write_replaces_others() {
    let mut t = HiResTimer::as_16bit_timer(TimerPeripheral::new(TimerInstance::TIMER1));
    t.enable_auto_clear(TimerCc::CC0);
    t.enable_auto_stop(TimerCc::CC2);
    t.disable_auto_clear(TimerCc::CC1);
    let p = t.free();
    assert!(!p.ch0.short_clear);
    assert!(!p.ch2.short_stop);
}

#[test]
fn periodic_hardware_clears_counter() {
    let n: u32 = 250;
    let mut t = HiResTimer::as_16bit_timer(TimerPeripheral::new(TimerInstance::TIMER1));
    assert_eq!(t.set_compare_register(TimerCc::CC0, n), Ok(()));
    t.enable_auto_clear(TimerCc::CC0);
    t.start();
    t.advance(n - 1);
    assert!(!t.read_compare_event(TimerCc::CC0));
    t.advance(1);
    assert!(t.read_compare_event(TimerCc::CC0));
    t.capture(TimerCc::CC1);
    assert_eq!(t.captured_counter(TimerCc::CC1), 0);
    t.advance(7);
    t.capture(TimerCc::CC1);
    assert_eq!(t.captured_counter(TimerCc::CC1), 7);
}

#[test]
fn countdown_at_one_megahertz() {
    let mut c = CountDownTimer::new(TimerPeripheral::new(TimerInstance::TIMER0), TimerFrequency::Freq1MHz);
    assert_eq!(c.start(Hfticks::from_us(1000)), Ok(()));
    assert_eq!(c.wait(), Err(WouldBlock));
    c.advance(999);
    assert_eq!(c.wait(), Err(WouldBlock));
    c.advance(1);
    assert_eq!(c.wait(), Ok(()));
    assert_eq!(c.wait(), Err(WouldBlock));
    c.advance(2500);
    assert_eq!(c.wait(), Ok(()));
    let p = c.free();
    assert!(!p.ch0.event);
    assert_eq!(p.ch0.cc, 1000);
}

#[test]
fn start_never_fires_at_once() {
    let mut c = CountDownTimer::new(TimerPeripheral::new(TimerInstance::TIMER1), TimerFrequency::Freq16MHz);
    assert_eq!(c.start(Hfticks(1)), Ok(()));
    assert_eq!(c.wait(), Err(WouldBlock));
    c.advance(1);
    assert_eq!(c.wait(), Ok(()));
    // A restart after a match that was never polled drops the stale event.
    c.advance(1);
    assert_eq!(c.start(Hfticks(5)), Ok(()));
    assert_eq!(c.wait(), Err(WouldBlock));
}

#[test]
fn periodic_countdown_fires_every_period() {
    let mut c = CountDownTimer::new(TimerPeripheral::new(TimerInstance::TIMER2), TimerFrequency::Freq1MHz);
    assert_eq!(c.start(Hfticks::from_us(100)), Ok(()));
    for _ in 0..20 {
        c.advance(99);
        assert_eq!(c.wait(), Err(WouldBlock));
        c.advance(1);
        assert_eq!(c.wait(), Ok(()));
    }
    let p = c.free();
    assert_eq!(p.counter, 0);
}

#[test]
fn countdown_overflow_on_sixteen_bits() {
    let mut c = CountDownTimer::new(TimerPeripheral::new(TimerInstance::TIMER1), TimerFrequency::Freq1MHz);
    assert_eq!(c.start(Hfticks::from_ms(66)), Err(TimerError::ConversionOverflow));
    assert_eq!(c.start(Hfticks::from_ms(65)), Ok(()));
    assert_eq!(c.frequency(), TimerFrequency::Freq1MHz);
}

#[test]
fn one_shot_countdown_fires_once() {
    let mut c = CountDownRtc::new(RtcPeripheral::new(RtcInstance::RTC0), RtcFrequency::from_prescaler(31).unwrap());
    assert!(!c.is_armed());
    // 1000 ms at 1024 Hz is 1024 ticks.
    assert_eq!(c.start(Lfticks::from_ms(1000)), Ok(()));
    assert!(c.is_armed());
    assert_eq!(c.wait(), Err(WouldBlock));
    c.advance(1023);
    assert_eq!(c.wait(), Err(WouldBlock));
    assert!(c.is_armed());
    c.advance(1);
    assert_eq!(c.wait(), Ok(()));
    assert!(!c.is_armed());
    let p = c.free();
    assert!(!p.running);
    assert_eq!(p.counter, 1024);
}

#[test]
fn one_shot_countdown_rejects_long_counts() {
    let mut c = CountDownRtc::new(RtcPeripheral::new(RtcInstance::RTC1), RtcFrequency::from_prescaler(0).unwrap());
    assert_eq!(c.start(Lfticks(1 << 24)), Err(TimerError::ConversionOverflow));
    assert!(!c.is_armed());
    assert_eq!(c.start(Lfticks((1 << 24) - 1)), Ok(()));
    assert!(c.is_armed());
}

#[test]
fn system_timer_countdown() {
    let mut t = Timer::new(TimerPeripheral::new(TimerInstance::TIMER0));
    assert_eq!(t.start(Hfticks::from_ms(2)), Ok(()));
    t.advance(1999);
    assert_eq!(t.wait(), Err(WouldBlock));
    t.advance(1);
    assert_eq!(t.wait(), Ok(()));
    assert_eq!(t.start(Hfticks((u32::MAX as u64 + 1) * 16)), Err(TimerError::ConversionOverflow));
    let p = t.free();
    assert_eq!(p.prescaler, 4);
}

#[test]
fn delay_overflows_sixteen_bit_timer() {
    let mut d = DelayTimer::new(TimerPeripheral::new(TimerInstance::TIMER1), TimerFrequency::Freq1MHz);
    assert_eq!(d.delay_ms(5000), Err(TimerError::ConversionOverflow));
    assert_eq!(d.delay_ms(65), Ok(()));
    let p = d.free();
    assert_eq!(p.counter, 65_000);
    assert!(!p.running);
}

#[test]
fn delay_timer_runs_exact_ticks() {
    let mut d = DelayTimer::new(TimerPeripheral::new(TimerInstance::TIMER0), TimerFrequency::Freq125kHz);
    assert_eq!(d.delay_us(1000), Ok(()));
    assert_eq!(d.delay_us(7), Ok(()));
    // Under one tick at 125 kHz: returns at once, nothing changes.
    assert_eq!(d.delay(Hfticks(100)), Ok(()));
    let p = d.free();
    assert_eq!(p.counter, 125);
    assert_eq!(p.ch0.cc, 125);
}

#[test]
fn delay_rtc_runs_exact_ticks() {
    let mut d = DelayRtc::new(RtcPeripheral::new(RtcInstance::RTC0), RtcFrequency::from_prescaler(31).unwrap());
    assert_eq!(d.delay_ms(250), Ok(()));
    assert_eq!(d.delay_us(3000), Ok(()));
    let p = d.free();
    assert_eq!(p.counter, 3);
    assert!(!p.running);
    let mut d = DelayRtc::new(RtcPeripheral::new(RtcInstance::RTC1), RtcFrequency::from_prescaler(0).unwrap());
    assert_eq!(d.delay(Lfticks(1 << 24)), Err(TimerError::ConversionOverflow));
    assert_eq!(d.delay_us(10), Ok(()));
    assert_eq!(d.free().counter, 0);
}

#[test]
fn system_delay() {
    let mut d = Delay::new(TimerPeripheral::new(TimerInstance::TIMER0));
    assert_eq!(d.delay_us(5), Ok(()));
    assert_eq!(d.delay_ms(3), Ok(()));
    assert_eq!(d.delay_ms(5_000_000), Err(TimerError::ConversionOverflow));
    assert_eq!(d.free().counter, 3000);
}

#[test]
fn rtc_compare_limit_is_strict() {
    let mut r = LoResTimer::new(RtcPeripheral::new(RtcInstance::RTC1));
    assert_eq!(r.set_compare_register(RtcCc::CC3, 16_777_216), Err(config_error(16_777_216, 16_777_215)));
    assert_eq!(r.compare_register(RtcCc::CC3), 0);
    assert_eq!(r.set_compare_register(RtcCc::CC3, 16_777_215), Ok(()));
    assert_eq!(r.compare_register(RtcCc::CC3), 16_777_215);
    let p = r.free();
    assert!(p.ch3.event_enabled);
}

#[test]
fn rtc_frequency_bounds() {
    assert_eq!(RtcFrequency::from_prescaler(4096).map(|f| f.as_prescaler()), Err(config_error(4096, 4095)));
    let f = RtcFrequency::const_from_prescaler(327);
    assert_eq!(f.hertz(), Hertz(99));
    assert_eq!(f.scale(3280), Some(10));
    assert_eq!(RtcFrequency::const_from_prescaler(0).scale(1u64 << 32), None);
}

#[test]
fn rtc0_lacks_cc3() {
    let r = LoResTimer::new(RtcPeripheral::new(RtcInstance::RTC0));
    assert!(!r.has_register(RtcCc::CC3));
    assert!(r.has_register(RtcCc::CC2));
    assert!(!RtcInstance::RTC0.has_register(RtcCc::CC3));
    assert!(RtcInstance::RTC1.has_register(RtcCc::CC3));
}

#[test]
fn rtc_compare_needs_event_enable() {
    let mut r = LoResTimer::new(RtcPeripheral::new(RtcInstance::RTC1));
    assert_eq!(r.set_compare_register(RtcCc::CC1, 3), Ok(()));
    r.disable_compare_event(RtcCc::CC1);
    r.start();
    r.advance(3);
    assert!(!r.read_compare_event(RtcCc::CC1));
    r.enable_compare_event(RtcCc::CC1);
    r.clear();
    r.advance(3);
    assert!(r.poll_compare_event(RtcCc::CC1));
    assert!(!r.read_compare_event(RtcCc::CC1));
    assert_eq!(r.read_counter(), 3);
}

#[test]
fn rtc_tick_and_overflow_events() {
    let mut r = LoResTimer::new(RtcPeripheral::new(RtcInstance::RTC0));
    r.enable_tick_event();
    r.enable_overflow_event();
    r.enable_tick_interrupt();
    r.enable_overflow_interrupt();
    r.enable_compare_interrupt(RtcCc::CC0);
    r.start();
    r.advance(1);
    assert!(r.read_tick_event());
    assert!(r.poll_tick_event());
    assert!(!r.poll_tick_event());
    r.trigger_overflow();
    assert_eq!(r.read_counter(), 0xff_fff0);
    r.advance(15);
    assert!(!r.read_overflow_event());
    r.advance(1);
    assert!(r.read_overflow_event());
    assert_eq!(r.read_counter(), 0);
    assert!(r.poll_overflow_event());
    assert!(!r.read_overflow_event());
    r.clear_tick_event();
    r.clear_compare_event(RtcCc::CC0);
    r.disable_tick_event();
    r.disable_overflow_event();
    r.disable_tick_interrupt();
    r.disable_overflow_interrupt();
    r.disable_compare_interrupt(RtcCc::CC0);
    r.stop();
    r.clear_overflow_event();
    let p = r.free();
    assert!(!p.tick_event_enabled && !p.tick_interrupt && !p.overflow_interrupt && !p.ch0.interrupt);
}

#[test]
fn delay_timer_hardware_steps() {
    let mut d = DelayTimer::new(TimerPeripheral::new(TimerInstance::TIMER1), TimerFrequency::Freq1MHz);
    assert!(!d.is_pending());
    assert_eq!(d.begin(Hfticks::from_us(500)), Ok(true));
    assert!(d.is_pending());
    let r = d.registers();
    assert!(r.running);
    assert_eq!(r.counter, 0);
    assert_eq!(r.ch0.cc, 500);
    assert!(r.ch0.short_stop && !r.ch0.short_clear);
    assert!(!d.poll());
    d.observe_match();
    assert_eq!(d.registers().counter, 500);
    assert!(!d.registers().running);
    assert!(d.poll());
    assert!(!d.is_pending());
    assert!(!d.registers().ch0.event);
    assert_eq!(d.begin(Hfticks(15)), Ok(false));
    assert_eq!(d.begin(Hfticks::from_ms(66)), Err(TimerError::ConversionOverflow));
    assert!(!d.is_pending());
}

#[test]
fn delay_rtc_hardware_steps() {
    let mut d = DelayRtc::new(RtcPeripheral::new(RtcInstance::RTC1), RtcFrequency::from_prescaler(0).unwrap());
    assert_eq!(d.begin(Lfticks(40)), Ok(true));
    assert!(d.registers().running);
    assert!(d.registers().ch0.event_enabled);
    assert!(!d.poll());
    d.observe_match();
    assert_eq!(d.registers().counter, 40);
    assert!(d.poll());
    assert!(!d.registers().running);
    assert!(!d.is_pending());
    assert_eq!(d.begin(Lfticks(1 << 24)), Err(TimerError::ConversionOverflow));
}

#[test]
fn constructors_leave_reset_registers() {
    let c = CountDownTimer::new(TimerPeripheral::new(TimerInstance::TIMER0), TimerFrequency::Freq250kHz);
    let r = c.registers();
    assert!(!r.running);
    assert_eq!(r.bitmode, BitMode::_32bit);
    assert_eq!(r.prescaler, 6);
    assert!(r.ch0.short_clear && !r.ch0.short_stop && !r.ch0.event && !r.ch0.interrupt);
    assert!(!r.ch1.short_clear && !r.ch2.short_stop && !r.ch3.interrupt);
    let d = DelayTimer::new(TimerPeripheral::new(TimerInstance::TIMER2), TimerFrequency::Freq1MHz);
    assert_eq!(d.registers().bitmode, BitMode::_16bit);
    assert!(d.registers().ch0.short_stop && !d.registers().ch0.short_clear);
    let mut p = RtcPeripheral::new(RtcInstance::RTC1);
    p.ch2.event_enabled = true;
    p.tick_interrupt = true;
    let c = CountDownRtc::new(p, RtcFrequency::from_prescaler(7).unwrap());
    let r = c.registers();
    assert_eq!(r.prescaler, 7);
    assert!(r.ch0.event_enabled && !r.ch2.event_enabled && !r.tick_interrupt && !r.running);
    let d = DelayRtc::new(RtcPeripheral::new(RtcInstance::RTC0), RtcFrequency::from_prescaler(1).unwrap());
    assert!(d.registers().ch0.event_enabled && !d.registers().tick_event_enabled);
}

#[test]
fn countdowns_take_hardware_matches() {
    let mut c = CountDownTimer::new(TimerPeripheral::new(TimerInstance::TIMER0), TimerFrequency::Freq1MHz);
    assert_eq!(c.start(Hfticks::from_us(300)), Ok(()));
    c.advance(120);
    c.observe_match();
    assert_eq!(c.registers().counter, 0);
    assert!(c.registers().running);
    assert_eq!(c.wait(), Ok(()));
    assert_eq!(c.wait(), Err(WouldBlock));
    let mut r = CountDownRtc::new(RtcPeripheral::new(RtcInstance::RTC0), RtcFrequency::from_prescaler(0).unwrap());
    assert_eq!(r.start(Lfticks(9)), Ok(()));
    r.observe_match();
    assert_eq!(r.registers().counter, 9);
    assert_eq!(r.wait(), Ok(()));
    assert!(!r.is_armed());
    assert!(!r.registers().running);
    let mut t = Timer::new(TimerPeripheral::new(TimerInstance::TIMER0));
    assert_eq!(t.start(Hfticks::from_us(10)), Ok(()));
    t.observe_match();
    assert_eq!(t.wait(), Ok(()));
    assert_eq!(t.registers().counter, 0);
}
