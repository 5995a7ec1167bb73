//! Blocking delays: a countdown armed once, then polled until it fires.

use vstd::prelude::*;

use crate::error::TimerError;
use crate::hi_res_timer::{
    configured_timer, max_width_of, timer_frequency_of, HiResTimer, TimerCc, TimerFrequency,
};
use crate::lo_res_timer::{LoResTimer, RtcCc, RtcFrequency, RTC_MAX_COMPARE};
use crate::peripheral::{CompareChannel, RtcChannel, RtcPeripheral, TimerInstance, TimerPeripheral};
use crate::timer::{countdown_rtc_initial, rtc_armed, timer_armed, timer_cc0_matched, rtc_cc0_matched};
use crate::time::{Hfticks, Lfticks};

verus! {

/// The shortcut setting of a one-shot delay: CC0 stops the counter, and no
/// other shortcut is on.
pub open spec fn one_shot_shortcuts(p: TimerPeripheral) -> bool {
    &&& !p.ch0.short_clear && p.ch0.short_stop
    &&& !p.ch1.short_clear && !p.ch1.short_stop
    &&& !p.ch2.short_clear && !p.ch2.short_stop
    &&& !p.ch3.short_clear && !p.ch3.short_stop
}

/// The ticks of a TIMER at PRESCALER `prescaler` in `count` ticks of the
/// 16 MHz clock, rounded down.
pub open spec fn timer_ticks(count: nat, prescaler: u32) -> nat {
    count / timer_frequency_of(prescaler as nat).divisor()
}

/// The ticks of an RTC at PRESCALER `prescaler` in `count` ticks of the
/// 32768 Hz clock, rounded down.
pub open spec fn rtc_ticks(count: nat, prescaler: u32) -> nat {
    count / (prescaler as nat + 1)
}

/// The block of a TIMER that a `DelayTimer` at `frequency` just took over:
/// stopped and cleared, with the widest counter, the PRESCALER of
/// `frequency`, every CC register, event and interrupt at reset, and CC0's
/// STOP shortcut as the only shortcut.
pub open spec fn delay_timer_initial(instance: TimerInstance, frequency: TimerFrequency) -> TimerPeripheral {
    TimerPeripheral {
        prescaler: frequency.prescaler() as u32,
        ..configured_timer(instance, max_width_of(instance))
    }.with_only_shortcuts(TimerCc::CC0, false, true)
}

/// A TIMER as a blocking delay provider.
///
/// The counter has the TIMER's greatest width, and CC0's shortcut stops it
/// on a match, so the hardware ends each delay by itself. A delay is armed
/// by `begin`, a match seen on the hardware is handed in by `observe_match`,
/// and `poll` ends the delay once the match is recorded; `delay` runs the
/// whole sequence on the register block.
pub struct DelayTimer {
    timer: HiResTimer,
    pending: u32,
}

impl DelayTimer {
    /// The registers of the TIMER.
    pub closed spec fn peripheral(&self) -> TimerPeripheral {
        self.timer.peripheral()
    }

    /// The largest number of ticks one delay can last.
    pub closed spec fn max_ticks(&self) -> nat {
        self.timer.width_spec().max_ticks()
    }

    /// The ticks of the delay in progress, or 0 when idle.
    pub closed spec fn pending_ticks(&self) -> nat {
        self.pending as nat
    }

    /// The TIMER has its greatest width and the one-shot shortcut setting.
    /// When idle it is stopped with CC0's event clear; during a delay of `n`
    /// ticks CC0 holds `n`, and the counter runs up to `n`, where the event
    /// is set and the counter stops.
    pub closed spec fn wf(&self) -> bool {
        let p = self.timer.peripheral();
        &&& self.timer.wf()
        &&& self.timer.width_spec() == max_width_of(p.instance)
        &&& one_shot_shortcuts(p)
        &&& self.pending <= self.timer.width_spec().max_ticks()
        &&& if self.pending == 0 {
            !p.running && !p.ch0.event
        } else {
            &&& p.ch0.cc == self.pending
            &&& p.counter <= self.pending
            &&& p.ch0.event == (p.counter == self.pending)
            &&& p.running == (p.counter < self.pending)
        }
    }

    /// Takes the TIMER over as a delay provider at `frequency`.
    pub fn new(timer: TimerPeripheral, frequency: TimerFrequency) -> (r: DelayTimer)
        ensures
            r.wf(),
            r.pending_ticks() == 0,
            r.max_ticks() == max_width_of(timer.instance).max_ticks(),
            r.peripheral() == delay_timer_initial(timer.instance, frequency),
    {
        let mut t = HiResTimer::as_max_width_timer(timer);
        t.set_frequency(frequency);
        t.enable_auto_stop(TimerCc::CC0);
        DelayTimer { timer: t, pending: 0 }
    }

    /// Stops the TIMER and gives its registers back.
    pub fn free(self) -> (r: TimerPeripheral)
        ensures
            r == (TimerPeripheral { running: false, ..self.peripheral() }),
    {
        self.timer.free()
    }

    /// The registers of the TIMER, as the driver last left them.
    pub fn registers(&self) -> (r: &TimerPeripheral)
        ensures
            *r == self.peripheral(),
    {
        self.timer.registers()
    }

    /// Whether a delay is in progress.
    pub fn is_pending(&self) -> (r: bool)
        ensures
            r == (self.pending_ticks() > 0),
    {
        self.pending > 0
    }

    /// Arms a delay of `count` (ticks of the 16 MHz clock, converted to the
    /// TIMER's frequency and rounded down): stops the TIMER, clears CC0's
    /// event and the counter, writes the tick number to CC0 and starts it.
    /// Returns `Ok(true)` when armed, `Ok(false)` and changes nothing for a
    /// delay shorter than one tick, and `ConversionOverflow`, changing
    /// nothing, when the tick number does not fit the counter's width.
    pub fn begin(&mut self, count: Hfticks) -> (r: Result<bool, TimerError>)
        requires
            old(self).wf(),
        ensures
            final(self).wf(),
            final(self).max_ticks() == old(self).max_ticks(),
            ({
                let ticks = timer_ticks(count.0 as nat, old(self).peripheral().prescaler);
                &&& r is Ok <==> ticks <= old(self).max_ticks()
                &&& r == Ok::<bool, TimerError>(true) <==> 1 <= ticks <= old(self).max_ticks()
                &&& r is Err ==> r == Err::<bool, TimerError>(TimerError::ConversionOverflow)
                &&& r != Ok::<bool, TimerError>(true) ==> final(self).peripheral() == old(
                    self,
                ).peripheral() && final(self).pending_ticks() == old(self).pending_ticks()
                &&& r == Ok::<bool, TimerError>(true) ==> final(self).peripheral() == timer_armed(
                    old(self).peripheral(),
                    ticks as u32,
                ) && final(self).pending_ticks() == ticks
            }),
    {
        let f = self.timer.frequency();
        let ticks = match f.scale(count.0) {
            Some(t) => t,
            None => {
                return Err(TimerError::ConversionOverflow);
            },
        };
        let ticks = match self.timer.width().try_from_u32(ticks) {
            Ok(t) => t,
            Err(_) => {
                return Err(TimerError::ConversionOverflow);
            },
        };
        if ticks == 0 {
            return Ok(false);
        }
        self.timer.stop();
        self.timer.clear_compare_event(TimerCc::CC0);
        self.timer.clear();
        let written = self.timer.set_compare_register(TimerCc::CC0, ticks);
        assert(written is Ok);
        self.timer.start();
        self.pending = ticks;
        Ok(true)
    }

    /// Records that the hardware counter reached CC0 during a delay: the
    /// COMPARE event of CC0 is set, and the STOP shortcut has halted the
    /// counter at the delay's tick number.
    pub fn observe_match(&mut self)
        requires
            old(self).wf(),
            old(self).pending_ticks() > 0,
        ensures
            final(self).wf(),
            final(self).max_ticks() == old(self).max_ticks(),
            final(self).pending_ticks() == old(self).pending_ticks(),
            final(self).peripheral() == timer_cc0_matched(old(self).peripheral()),
            final(self).peripheral().counter == old(self).pending_ticks(),
            !final(self).peripheral().running,
    {
        self.timer.record_cc0_match();
    }

    /// Polls the delay once: clears CC0's event and returns whether it was
    /// set. A delay whose match was recorded is over and the provider idle.
    pub fn poll(&mut self) -> (r: bool)
        requires
            old(self).wf(),
        ensures
            final(self).wf(),
            final(self).max_ticks() == old(self).max_ticks(),
            r == old(self).peripheral().ch0.event,
            final(self).peripheral() == (TimerPeripheral {
                ch0: CompareChannel { event: false, ..old(self).peripheral().ch0 },
                ..old(self).peripheral()
            }),
            final(self).pending_ticks() == if r {
                0
            } else {
                old(self).pending_ticks()
            },
    {
        let fired = self.timer.poll_compare_event(TimerCc::CC0);
        if fired {
            self.pending = 0;
        }
        fired
    }

    /// Lets one period of the TIMER's clock pass during a delay that has not
    /// reached its end.
    fn step(&mut self)
        requires
            old(self).wf(),
            old(self).pending_ticks() > 0,
            !old(self).peripheral().ch0.event,
        ensures
            final(self).wf(),
            final(self).max_ticks() == old(self).max_ticks(),
            final(self).pending_ticks() == old(self).pending_ticks(),
            final(self).peripheral().counter == old(self).peripheral().counter + 1,
            final(self).peripheral().prescaler == old(self).peripheral().prescaler,
            final(self).peripheral().instance == old(self).peripheral().instance,
    {
        let ghost q = self.timer.peripheral();
        proof {
            vstd::arithmetic::div_mod::lemma_small_mod((q.counter + 1) as nat, q.bitmode.modulus());
            assert(q.ticked_n(1) == q.ticked().ticked_n(0));
        }
        self.timer.advance(1);
    }

    /// Waits for `count` (ticks of the 16 MHz clock, converted to the TIMER's
    /// frequency and rounded down): arms the delay with `begin`, then polls
    /// until the match, letting one tick pass between polls. A delay shorter
    /// than one tick returns at once; one whose tick number does not fit the
    /// counter's width returns `ConversionOverflow`, changing nothing. The
    /// provider ends idle: stopped, with CC0's event clear.
    pub fn delay(&mut self, count: Hfticks) -> (r: Result<(), TimerError>)
        requires
            old(self).wf(),
            old(self).pending_ticks() == 0,
        ensures
            final(self).wf(),
            final(self).max_ticks() == old(self).max_ticks(),
            final(self).pending_ticks() == 0,
            final(self).peripheral().prescaler == old(self).peripheral().prescaler,
            final(self).peripheral().instance == old(self).peripheral().instance,
            !final(self).peripheral().running,
            !final(self).peripheral().ch0.event,
            ({
                let ticks = timer_ticks(count.0 as nat, old(self).peripheral().prescaler);
                &&& r is Ok <==> ticks <= old(self).max_ticks()
                &&& r is Err ==> r == Err::<(), TimerError>(TimerError::ConversionOverflow)
                    && final(self).peripheral() == old(self).peripheral()
                &&& (r is Ok && ticks == 0) ==> final(self).peripheral() == old(
                    self,
                ).peripheral()
                &&& (r is Ok && ticks > 0) ==> {
                    &&& final(self).peripheral().counter == ticks
                    &&& final(self).peripheral().ch0.cc == ticks
                }
            }),
    {
        let armed = self.begin(count);
        match armed {
            Err(e) => {
                return Err(e);
            },
            Ok(false) => {
                return Ok(());
            },
            Ok(true) => {},
        }
        let ghost ticks = self.pending_ticks();
        let ghost prescaler = self.timer.peripheral().prescaler;
        let ghost instance = self.timer.peripheral().instance;
        let ghost max = self.max_ticks();
        let mut fired = false;
        while !fired
            invariant
                self.wf(),
                self.max_ticks() == max,
                self.peripheral().prescaler == prescaler,
                self.peripheral().instance == instance,
                self.peripheral().ch0.cc == ticks,
                1 <= ticks,
                self.peripheral().counter <= ticks,
                !fired ==> self.pending_ticks() == ticks,
                fired ==> self.pending_ticks() == 0 && self.peripheral().counter == ticks,
            decreases ticks - self.peripheral().counter + if fired {
                0int
            } else {
                1int
            },
        {
            fired = self.poll();
            if !fired {
                self.step();
            }
        }
        Ok(())
    }

    /// Waits for `ms` milliseconds, as `delay`.
    pub fn delay_ms(&mut self, ms: u32) -> (r: Result<(), TimerError>)
        requires
            old(self).wf(),
            old(self).pending_ticks() == 0,
        ensures
            final(self).wf(),
            final(self).max_ticks() == old(self).max_ticks(),
            final(self).pending_ticks() == 0,
            final(self).peripheral().prescaler == old(self).peripheral().prescaler,
            !final(self).peripheral().running,
            !final(self).peripheral().ch0.event,
            ({
                let ticks = timer_ticks((ms * 16_000) as nat, old(self).peripheral().prescaler);
                &&& r is Ok <==> ticks <= old(self).max_ticks()
                &&& r is Err ==> r == Err::<(), TimerError>(TimerError::ConversionOverflow)
                    && final(self).peripheral() == old(self).peripheral()
                &&& (r is Ok && ticks > 0) ==> final(self).peripheral().counter == ticks
            }),
    {
        self.delay(Hfticks::from_ms(ms))
    }

    /// Waits for `us` microseconds, as `delay`.
    pub fn delay_us(&mut self, us: u32) -> (r: Result<(), TimerError>)
        requires
            old(self).wf(),
            old(self).pending_ticks() == 0,
        ensures
            final(self).wf(),
            final(self).max_ticks() == old(self).max_ticks(),
            final(self).pending_ticks() == 0,
            final(self).peripheral().prescaler == old(self).peripheral().prescaler,
            !final(self).peripheral().running,
            !final(self).peripheral().ch0.event,
            ({
                let ticks = timer_ticks((us * 16) as nat, old(self).peripheral().prescaler);
                &&& r is Ok <==> ticks <= old(self).max_ticks()
                &&& r is Err ==> r == Err::<(), TimerError>(TimerError::ConversionOverflow)
                    && final(self).peripheral() == old(self).peripheral()
                &&& (r is Ok && ticks > 0) ==> final(self).peripheral().counter == ticks
            }),
    {
        self.delay(Hfticks::from_us(us))
    }
}

/// An RTC as a blocking delay provider.
///
/// A delay is armed by `begin`, a match seen on the hardware is handed in by
/// `observe_match`, and `poll` ends the delay, stopping the RTC, once the
/// match is recorded; `delay` runs the whole sequence on the register block.
pub struct DelayRtc {
    timer: LoResTimer,
    pending: u32,
}

impl DelayRtc {
    /// The registers of the RTC.
    pub closed spec fn peripheral(&self) -> RtcPeripheral {
        self.timer.peripheral()
    }

    /// The ticks of the delay in progress, or 0 when idle.
    pub closed spec fn pending_ticks(&self) -> nat {
        self.pending as nat
    }

    /// CC0's event is enabled. When idle the RTC is stopped with CC0's event
    /// clear; during a delay of `n` ticks it runs, CC0 holds `n`, and the
    /// counter runs up to `n`, where the event is set.
    pub closed spec fn wf(&self) -> bool {
        let p = self.timer.peripheral();
        &&& self.timer.wf()
        &&& p.ch0.event_enabled
        &&& self.pending <= RTC_MAX_COMPARE
        &&& if self.pending == 0 {
            !p.running && !p.ch0.event
        } else {
            &&& p.running
            &&& p.ch0.cc == self.pending
            &&& p.counter <= self.pending
            &&& p.ch0.event == (p.counter == self.pending)
        }
    }

    /// Takes the RTC over as a delay provider at `frequency`.
    pub fn new(timer: RtcPeripheral, frequency: RtcFrequency) -> (r: DelayRtc)
        ensures
            r.wf(),
            r.pending_ticks() == 0,
            r.peripheral() == countdown_rtc_initial(timer, frequency),
    {
        let mut t = LoResTimer::new(timer);
        t.set_frequency(frequency);
        t.enable_compare_event(RtcCc::CC0);
        DelayRtc { timer: t, pending: 0 }
    }

    /// Stops the RTC and gives its registers back.
    pub fn free(self) -> (r: RtcPeripheral)
        ensures
            r == (RtcPeripheral { running: false, ..self.peripheral() }),
    {
        self.timer.free()
    }

    /// The registers of the RTC, as the driver last left them.
    pub fn registers(&self) -> (r: &RtcPeripheral)
        ensures
            *r == self.peripheral(),
    {
        self.timer.registers()
    }

    /// Whether a delay is in progress.
    pub fn is_pending(&self) -> (r: bool)
        ensures
            r == (self.pending_ticks() > 0),
    {
        self.pending > 0
    }

    /// Arms a delay of `count` (ticks of the 32768 Hz clock, converted to the
    /// RTC's frequency and rounded down): stops the RTC, clears CC0's event
    /// and the counter, writes the tick number to CC0 and starts it. Returns
    /// `Ok(true)` when armed, `Ok(false)` and changes nothing for a delay
    /// shorter than one tick, and `ConversionOverflow`, changing nothing, for
    /// one of 2^24 ticks or more.
    pub fn begin(&mut self, count: Lfticks) -> (r: Result<bool, TimerError>)
        requires
            old(self).wf(),
        ensures
            final(self).wf(),
            ({
                let ticks = rtc_ticks(count.0 as nat, old(self).peripheral().prescaler);
                &&& r is Ok <==> ticks <= RTC_MAX_COMPARE
                &&& r == Ok::<bool, TimerError>(true) <==> 1 <= ticks <= RTC_MAX_COMPARE
                &&& r is Err ==> r == Err::<bool, TimerError>(TimerError::ConversionOverflow)
                &&& r != Ok::<bool, TimerError>(true) ==> final(self).peripheral() == old(
                    self,
                ).peripheral() && final(self).pending_ticks() == old(self).pending_ticks()
                &&& r == Ok::<bool, TimerError>(true) ==> final(self).peripheral() == rtc_armed(
                    old(self).peripheral(),
                    ticks as u32,
                ) && final(self).pending_ticks() == ticks
            }),
    {
        let f = self.timer.frequency();
        let ticks = match f.scale(count.0) {
            Some(t) => t,
            None => {
                return Err(TimerError::ConversionOverflow);
            },
        };
        if ticks > RTC_MAX_COMPARE {
            return Err(TimerError::ConversionOverflow);
        }
        if ticks == 0 {
            return Ok(false);
        }
        self.timer.stop();
        self.timer.clear_compare_event(RtcCc::CC0);
        let written = self.timer.set_compare_register(RtcCc::CC0, ticks);
        assert(written is Ok);
        self.timer.clear();
        self.timer.start();
        self.pending = ticks;
        Ok(true)
    }

    /// Records that the hardware counter reached CC0 during a delay: the
    /// COMPARE event of CC0 is set and the counter holds the delay's tick
    /// number.
    pub fn observe_match(&mut self)
        requires
            old(self).wf(),
            old(self).pending_ticks() > 0,
        ensures
            final(self).wf(),
            final(self).pending_ticks() == old(self).pending_ticks(),
            final(self).peripheral() == rtc_cc0_matched(old(self).peripheral()),
            final(self).peripheral().counter == old(self).pending_ticks(),
    {
        self.timer.record_cc0_match();
    }

    /// Polls the delay once: clears CC0's event and returns whether it was
    /// set. If it was, the delay is over: the RTC is stopped and the provider
    /// idle.
    pub fn poll(&mut self) -> (r: bool)
        requires
            old(self).wf(),
        ensures
            final(self).wf(),
            r == old(self).peripheral().ch0.event,
            final(self).peripheral() == (RtcPeripheral {
                running: old(self).peripheral().running && !r,
                ch0: RtcChannel { event: false, ..old(self).peripheral().ch0 },
                ..old(self).peripheral()
            }),
            final(self).pending_ticks() == if r {
                0
            } else {
                old(self).pending_ticks()
            },
    {
        let fired = self.timer.poll_compare_event(RtcCc::CC0);
        if fired {
            self.timer.stop();
            self.pending = 0;
        }
        fired
    }

    /// Lets one period of the RTC's clock pass during a delay that has not
    /// reached its end.
    fn step(&mut self)
        requires
            old(self).wf(),
            old(self).pending_ticks() > 0,
            !old(self).peripheral().ch0.event,
        ensures
            final(self).wf(),
            final(self).pending_ticks() == old(self).pending_ticks(),
            final(self).peripheral().counter == old(self).peripheral().counter + 1,
            final(self).peripheral().prescaler == old(self).peripheral().prescaler,
            final(self).peripheral().instance == old(self).peripheral().instance,
    {
        let ghost q = self.timer.peripheral();
        proof {
            vstd::arithmetic::div_mod::lemma_small_mod((q.counter + 1) as nat, 0x100_0000nat);
            assert(q.ticked_n(1) == q.ticked().ticked_n(0));
        }
        self.timer.advance(1);
    }

    /// Waits for `count` (ticks of the 32768 Hz clock, converted to the RTC's
    /// frequency and rounded down): arms the delay with `begin`, then polls
    /// until the match, letting one tick pass between polls, and stops the
    /// RTC. A delay shorter than one tick returns at once; one of 2^24 ticks
    /// or more returns `ConversionOverflow`, changing nothing. The provider
    /// ends idle: stopped, with CC0's event clear.
    pub fn delay(&mut self, count: Lfticks) -> (r: Result<(), TimerError>)
        requires
            old(self).wf(),
            old(self).pending_ticks() == 0,
        ensures
            final(self).wf(),
            final(self).pending_ticks() == 0,
            final(self).peripheral().prescaler == old(self).peripheral().prescaler,
            final(self).peripheral().instance == old(self).peripheral().instance,
            !final(self).peripheral().running,
            !final(self).peripheral().ch0.event,
            ({
                let ticks = rtc_ticks(count.0 as nat, old(self).peripheral().prescaler);
                &&& r is Ok <==> ticks <= RTC_MAX_COMPARE
                &&& r is Err ==> r == Err::<(), TimerError>(TimerError::ConversionOverflow)
                    && final(self).peripheral() == old(self).peripheral()
                &&& (r is Ok && ticks == 0) ==> final(self).peripheral() == old(
                    self,
                ).peripheral()
                &&& (r is Ok && ticks > 0) ==> {
                    &&& final(self).peripheral().counter == ticks
                    &&& final(self).peripheral().ch0.cc == ticks
                }
            }),
    {
        let armed = self.begin(count);
        match armed {
            Err(e) => {
                return Err(e);
            },
            Ok(false) => {
                return Ok(());
            },
            Ok(true) => {},
        }
        let ghost ticks = self.pending_ticks();
        let ghost prescaler = self.timer.peripheral().prescaler;
        let ghost instance = self.timer.peripheral().instance;
        let mut fired = false;
        while !fired
            invariant
                self.wf(),
                self.peripheral().prescaler == prescaler,
                self.peripheral().instance == instance,
                self.peripheral().ch0.cc == ticks,
                1 <= ticks,
                self.peripheral().counter <= ticks,
                !fired ==> self.pending_ticks() == ticks,
                fired ==> self.pending_ticks() == 0 && self.peripheral().counter == ticks,
            decreases ticks - self.peripheral().counter + if fired {
                0int
            } else {
                1int
            },
        {
            fired = self.poll();
            if !fired {
                self.step();
            }
        }
        Ok(())
    }

    /// Waits for `ms` milliseconds, as `delay`.
    pub fn delay_ms(&mut self, ms: u32) -> (r: Result<(), TimerError>)
        requires
            old(self).wf(),
            old(self).pending_ticks() == 0,
        ensures
            final(self).wf(),
            final(self).pending_ticks() == 0,
            !final(self).peripheral().running,
            !final(self).peripheral().ch0.event,
            ({
                let ticks = rtc_ticks((ms * 32_768 / 1000) as nat, old(self).peripheral().prescaler);
                &&& r is Ok <==> ticks <= RTC_MAX_COMPARE
                &&& r is Err ==> r == Err::<(), TimerError>(TimerError::ConversionOverflow)
                    && final(self).peripheral() == old(self).peripheral()
                &&& (r is Ok && ticks > 0) ==> final(self).peripheral().counter == ticks
            }),
    {
        self.delay(Lfticks::from_ms(ms))
    }

    /// Waits for `us` microseconds, as `delay`.
    pub fn delay_us(&mut self, us: u32) -> (r: Result<(), TimerError>)
        requires
            old(self).wf(),
            old(self).pending_ticks() == 0,
        ensures
            final(self).wf(),
            final(self).pending_ticks() == 0,
            !final(self).peripheral().running,
            !final(self).peripheral().ch0.event,
            ({
                let ticks = rtc_ticks(
                    (us * 32_768 / 1_000_000) as nat,
                    old(self).peripheral().prescaler,
                );
                &&& r is Ok <==> ticks <= RTC_MAX_COMPARE
                &&& r is Err ==> r == Err::<(), TimerError>(TimerError::ConversionOverflow)
                    && final(self).peripheral() == old(self).peripheral()
                &&& (r is Ok && ticks > 0) ==> final(self).peripheral().counter == ticks
            }),
    {
        self.delay(Lfticks::from_us(us))
    }
}

/// TIMER0 as a delay provider at 1 MHz with a 32-bit counter (up to about
/// 71 minutes).
pub struct Delay(DelayTimer);

impl Delay {
    /// The registers of TIMER0.
    pub closed spec fn peripheral(&self) -> TimerPeripheral {
        self.0.peripheral()
    }

    /// The delay provider is well formed and idle, at 1 MHz with 32 bits.
    pub closed spec fn wf(&self) -> bool {
        &&& self.0.wf()
        &&& self.0.pending_ticks() == 0
        &&& self.0.max_ticks() == 0xffff_ffff
        &&& self.0.peripheral().prescaler == 4
    }

    /// Takes TIMER0 over as a 1 MHz delay provider.
    pub fn new(timer: TimerPeripheral) -> (r: Delay)
        requires
            timer.instance == TimerInstance::TIMER0,
        ensures
            r.wf(),
            r.peripheral() == delay_timer_initial(timer.instance, TimerFrequency::Freq1MHz),
    {
        Delay(DelayTimer::new(timer, TimerFrequency::Freq1MHz))
    }

    /// Stops TIMER0 and gives its registers back.
    pub fn free(self) -> (r: TimerPeripheral)
        ensures
            r == (TimerPeripheral { running: false, ..self.peripheral() }),
    {
        self.0.free()
    }

    /// The registers of TIMER0, as the driver last left them.
    pub fn registers(&self) -> (r: &TimerPeripheral)
        ensures
            *r == self.peripheral(),
    {
        self.0.registers()
    }

    /// Waits for `ms` milliseconds: `ms * 1000` ticks, or `ConversionOverflow`
    /// when that exceeds 32 bits.
    pub fn delay_ms(&mut self, ms: u32) -> (r: Result<(), TimerError>)
        requires
            old(self).wf(),
        ensures
            final(self).wf(),
            r is Ok <==> ms * 1000 <= u32::MAX,
            r is Err ==> r == Err::<(), TimerError>(TimerError::ConversionOverflow),
            !final(self).peripheral().running,
            !final(self).peripheral().ch0.event,
            (r is Ok && ms > 0) ==> final(self).peripheral().counter == ms * 1000,
    {
        assert((ms * 16_000) as nat / 16 == ms * 1000);
        self.0.delay_ms(ms)
    }

    /// Waits for `us` microseconds: `us` ticks, which always fit.
    pub fn delay_us(&mut self, us: u32) -> (r: Result<(), TimerError>)
        requires
            old(self).wf(),
        ensures
            final(self).wf(),
            r is Ok,
            !final(self).peripheral().running,
            !final(self).peripheral().ch0.event,
            us > 0 ==> final(self).peripheral().counter == us,
    {
        self.0.delay_us(us)
    }
}

} // verus!
