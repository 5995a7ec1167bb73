//! Countdown timers: one arm / poll / fire protocol over a TIMER (periodic)
//! or an RTC (one-shot).
//!
//! `start` stops the counter, clears any stale match event, clears the
//! counter, writes the new compare value and starts counting again, so no
//! stale match is seen after a restart. `wait` is a single poll that never
//! blocks.

use vstd::prelude::*;

use crate::error::{TimerError, WouldBlock};
use crate::hi_res_timer::{
    configured_timer, max_width_of, timer_frequency_of, HiResTimer, TimerCc, TimerFrequency,
};
use crate::lo_res_timer::{configured_rtc, LoResTimer, RtcCc, RtcFrequency, RTC_MAX_COMPARE};
use crate::peripheral::{
    CompareChannel, RtcChannel, RtcPeripheral, TimerInstance, TimerPeripheral,
};
use crate::time::{Hfticks, Lfticks};

verus! {

/// A TIMER block armed for `ticks`: counting from zero, with `ticks` in CC0
/// and the COMPARE event of CC0 clear.
pub open spec fn timer_armed(p: TimerPeripheral, ticks: u32) -> TimerPeripheral {
    TimerPeripheral {
        running: true,
        counter: 0,
        ch0: CompareChannel { cc: ticks, event: false, ..p.ch0 },
        ..p
    }
}

/// The shortcut setting of a periodic countdown: CC0 clears the counter, and
/// no other shortcut is on.
pub open spec fn periodic_shortcuts(p: TimerPeripheral) -> bool {
    &&& p.ch0.short_clear && !p.ch0.short_stop
    &&& !p.ch1.short_clear && !p.ch1.short_stop
    &&& !p.ch2.short_clear && !p.ch2.short_stop
    &&& !p.ch3.short_clear && !p.ch3.short_stop
}

/// A TIMER block counting towards CC0 = `n` with the periodic shortcut
/// setting, its counter below `n`, and `n` within the counter's range.
pub open spec fn periodic_at(p: TimerPeripheral, n: nat) -> bool {
    &&& p.running
    &&& periodic_shortcuts(p)
    &&& p.ch0.cc == n
    &&& 1 <= n < p.bitmode.modulus()
    &&& p.counter < n
}

/// Whether no shortcut is on for any compare channel but `r`.
pub open spec fn only_shortcuts_of(p: TimerPeripheral, r: TimerCc) -> bool {
    &&& (r == TimerCc::CC0 || (!p.ch0.short_clear && !p.ch0.short_stop))
    &&& (r == TimerCc::CC1 || (!p.ch1.short_clear && !p.ch1.short_stop))
    &&& (r == TimerCc::CC2 || (!p.ch2.short_clear && !p.ch2.short_stop))
    &&& (r == TimerCc::CC3 || (!p.ch3.short_clear && !p.ch3.short_stop))
}

/// A TIMER block counting towards the value `n` of CC register `r`:
/// running, its counter below `n`, `n` within the counter's range, and no
/// shortcut on the other channels (those of `r` may be anything).
pub open spec fn counting_to(p: TimerPeripheral, r: TimerCc, n: nat) -> bool {
    &&& p.running
    &&& p.channel(r).cc == n
    &&& 1 <= n < p.bitmode.modulus()
    &&& p.counter < n
    &&& only_shortcuts_of(p, r)
}

/// Below the value of CC register `r`, each period of the clock adds one to
/// the counter and leaves `r`'s event and every shortcut as they were.
pub proof fn lemma_count_up(p: TimerPeripheral, r: TimerCc, n: nat, j: nat)
    requires
        counting_to(p, r, n),
        p.counter + j < n,
    ensures
        counting_to(p.ticked_n(j), r, n),
        p.ticked_n(j).counter == p.counter + j,
        p.ticked_n(j).channel(r).event == p.channel(r).event,
        p.ticked_n(j).channel(r).short_clear == p.channel(r).short_clear,
        p.ticked_n(j).channel(r).short_stop == p.channel(r).short_stop,
        p.ticked_n(j).bitmode == p.bitmode,
    decreases j,
{
    if j > 0 {
        let q = p.ticked();
        assert(p.next_count() == p.counter + 1) by {
            vstd::arithmetic::div_mod::lemma_small_mod((p.counter + 1) as nat, p.bitmode.modulus());
        }
        lemma_count_up(q, r, n, (j - 1) as nat);
    }
}

/// A TIMER counting from zero towards the value `n` of CC register `r`
/// generates `r`'s COMPARE event exactly when `n` periods of its clock have
/// passed: before that the event stays as it was and the counter counts up;
/// at the `n`-th period the event is set, and the counter is back at zero
/// with `r`'s CLEAR shortcut (the next period begins with no software
/// action), halted at `n` with its STOP shortcut, and at `n` and running
/// with neither.
pub proof fn lemma_compare_fires_at(p: TimerPeripheral, r: TimerCc, n: nat)
    requires
        counting_to(p, r, n),
        p.counter == 0,
    ensures
        forall|j: nat|
            j < n ==> (#[trigger] p.ticked_n(j)).counter == j && p.ticked_n(j).channel(r).event
                == p.channel(r).event && p.ticked_n(j).running,
        p.ticked_n(n).channel(r).event,
        p.ticked_n(n).counter == if p.channel(r).short_clear {
            0
        } else {
            n
        },
        p.ticked_n(n).running == !p.channel(r).short_stop,
{
    assert forall|j: nat| j < n implies (#[trigger] p.ticked_n(j)).counter == j
        && p.ticked_n(j).channel(r).event == p.channel(r).event && p.ticked_n(j).running by {
        lemma_count_up(p, r, n, j);
    }
    let m = (n - 1) as nat;
    lemma_count_up(p, r, n, m);
    let q = p.ticked_n(m);
    p.lemma_ticked_n_add(m, 1);
    assert(q.ticked_n(1) == q.ticked().ticked_n(0));
    assert(q.next_count() == n) by {
        vstd::arithmetic::div_mod::lemma_small_mod(n, q.bitmode.modulus());
    }
}

/// Below CC0, each period of the clock adds one to the counter of a periodic
/// countdown and leaves CC0's event as it was.
pub proof fn lemma_periodic_count_up(p: TimerPeripheral, n: nat, j: nat)
    requires
        periodic_at(p, n),
        p.counter + j < n,
    ensures
        periodic_at(p.ticked_n(j), n),
        p.ticked_n(j).counter == p.counter + j,
        p.ticked_n(j).ch0.event == p.ch0.event,
        p.ticked_n(j).bitmode == p.bitmode,
{
    lemma_count_up(p, TimerCc::CC0, n, j);
}

/// One period of a periodic countdown armed for `n` ticks: for the first
/// `n - 1` ticks the counter counts up and CC0's event stays as it was; on
/// the `n`-th the event is set and the counter is back at zero, still
/// running, with no software action.
pub proof fn lemma_periodic_one_period(p: TimerPeripheral, n: nat)
    requires
        periodic_at(p, n),
        p.counter == 0,
    ensures
        forall|j: nat|
            0 < j < n ==> (#[trigger] p.ticked_n(j)).counter == j && p.ticked_n(j).ch0.event
                == p.ch0.event && p.ticked_n(j).running,
        p.ticked_n(n).counter == 0,
        p.ticked_n(n).ch0.event,
        periodic_at(p.ticked_n(n), n),
        p.ticked_n(n).bitmode == p.bitmode,
{
    assert forall|j: nat| 0 < j < n implies (#[trigger] p.ticked_n(j)).counter == j
        && p.ticked_n(j).ch0.event == p.ch0.event && p.ticked_n(j).running by {
        lemma_periodic_count_up(p, n, j);
    }
    let m = (n - 1) as nat;
    lemma_periodic_count_up(p, n, m);
    let q = p.ticked_n(m);
    p.lemma_ticked_n_add(m, 1);
    assert(q.ticked_n(1) == q.ticked().ticked_n(0));
    assert(q.next_count() == n) by {
        vstd::arithmetic::div_mod::lemma_small_mod(n, q.bitmode.modulus());
    }
}

/// A periodic countdown armed for `n` ticks fires indefinitely: after every
/// whole number `k` of periods the counter is back at zero, still running,
/// with the same setting, and (from the first period on) CC0's event set.
pub proof fn lemma_periodic_fires_every_period(p: TimerPeripheral, n: nat, k: nat)
    requires
        periodic_at(p, n),
        p.counter == 0,
    ensures
        periodic_at(p.ticked_n(k * n), n),
        p.ticked_n(k * n).counter == 0,
        k >= 1 ==> p.ticked_n(k * n).ch0.event,
        p.ticked_n(k * n).bitmode == p.bitmode,
    decreases k,
{
    if k > 0 {
        let k1 = (k - 1) as nat;
        lemma_periodic_fires_every_period(p, n, k1);
        let q = p.ticked_n(k1 * n);
        lemma_periodic_one_period(q, n);
        assert(k * n == k1 * n + n) by (nonlinear_arith)
            requires
                k1 == k - 1,
        ;
        p.lemma_ticked_n_add(k1 * n, n);
        assert(p.ticked_n(k * n) == q.ticked_n(n));
    } else {
        assert(k * n == 0) by (nonlinear_arith)
            requires
                k == 0,
        ;
        assert(p.ticked_n(0) == p);
    }
}

/// The block of a periodic countdown after `k` periods of `n` ticks, each
/// ended by a `wait` that clears CC0's event.
pub open spec fn polled_periods(p: TimerPeripheral, n: nat, k: nat) -> TimerPeripheral
    decreases k,
{
    if k == 0 {
        p
    } else {
        let q = polled_periods(p, n, (k - 1) as nat).ticked_n(n);
        TimerPeripheral { ch0: CompareChannel { event: false, ..q.ch0 }, ..q }
    }
}

/// A started periodic countdown, polled with `wait` once per period, fires
/// at every period, indefinitely, with no software re-arming: after any `k`
/// polled periods it is counting from zero again with CC0's event clear, a
/// poll in the next `n - 1` ticks finds no match, and a poll at the `n`-th
/// finds one.
pub proof fn lemma_periodic_polled(p: TimerPeripheral, n: nat, k: nat)
    requires
        periodic_at(p, n),
        p.counter == 0,
        !p.ch0.event,
    ensures
        periodic_at(polled_periods(p, n, k), n),
        polled_periods(p, n, k).counter == 0,
        !polled_periods(p, n, k).ch0.event,
        polled_periods(p, n, k).bitmode == p.bitmode,
        forall|j: nat| 0 < j < n ==> !(#[trigger] polled_periods(p, n, k).ticked_n(j)).ch0.event,
        polled_periods(p, n, k).ticked_n(n).ch0.event,
    decreases k,
{
    if k > 0 {
        let prev = polled_periods(p, n, (k - 1) as nat);
        lemma_periodic_polled(p, n, (k - 1) as nat);
        lemma_periodic_one_period(prev, n);
        let t = prev.ticked_n(n);
        assert(polled_periods(p, n, k) == TimerPeripheral {
            ch0: CompareChannel { event: false, ..t.ch0 },
            ..t
        });
    }
    let s = polled_periods(p, n, k);
    assert(periodic_at(s, n));
    lemma_periodic_one_period(s, n);
    assert forall|j: nat| 0 < j < n implies !(#[trigger] s.ticked_n(j)).ch0.event by {
        lemma_periodic_count_up(s, n, j);
    }
}

/// Right after `start` with at least one tick, a poll finds no match: the
/// event is clear, and stays clear for every tick before the compare value.
pub proof fn lemma_start_then_wait_blocks(p: TimerPeripheral, ticks: u32, j: nat)
    requires
        periodic_shortcuts(p),
        1 <= ticks < p.bitmode.modulus(),
        j < ticks,
    ensures
        !timer_armed(p, ticks).ch0.event,
        !timer_armed(p, ticks).ticked_n(j).ch0.event,
{
    let q = timer_armed(p, ticks);
    lemma_periodic_count_up(q, ticks as nat, j);
}

/// Right after `start` of a one-shot countdown with at least one tick, a
/// poll finds no match: the event is clear, and stays clear for every tick
/// before the compare value.
pub proof fn lemma_rtc_start_then_wait_blocks(p: RtcPeripheral, ticks: u32, j: nat)
    requires
        1 <= ticks <= RTC_MAX_COMPARE,
        j < ticks,
    ensures
        !rtc_armed(p, ticks).ch0.event,
        !rtc_armed(p, ticks).ticked_n(j).ch0.event,
        rtc_armed(p, ticks).ticked_n(j).counter == j,
    decreases j,
{
    if j > 0 {
        let j1 = (j - 1) as nat;
        lemma_rtc_start_then_wait_blocks(p, ticks, j1);
        let q = rtc_armed(p, ticks).ticked_n(j1);
        rtc_armed(p, ticks).lemma_ticked_n_add(j1, 1);
        assert(q.ticked_n(1) == q.ticked().ticked_n(0));
        rtc_armed(p, ticks).lemma_ticks_keep_running(j1);
        vstd::arithmetic::div_mod::lemma_small_mod(j, 0x100_0000nat);
    }
}

/// The block of a TIMER that a `CountDownTimer` at `frequency` just took
/// over: stopped and cleared, with the widest counter, the PRESCALER of
/// `frequency`, every CC register, event and interrupt at reset, and CC0's
/// CLEAR shortcut as the only shortcut.
pub open spec fn countdown_timer_initial(
    instance: TimerInstance,
    frequency: TimerFrequency,
) -> TimerPeripheral {
    TimerPeripheral {
        prescaler: frequency.prescaler() as u32,
        ..configured_timer(instance, max_width_of(instance))
    }.with_only_shortcuts(TimerCc::CC0, true, false)
}

/// A TIMER block after its counter reached CC0: the COMPARE event of CC0 is
/// set, and CC0's shortcuts clear the counter to zero or stop it.
pub open spec fn timer_cc0_matched(p: TimerPeripheral) -> TimerPeripheral {
    TimerPeripheral {
        counter: if p.ch0.short_clear {
            0
        } else {
            p.ch0.cc
        },
        running: p.running && !p.ch0.short_stop,
        ch0: CompareChannel { event: true, ..p.ch0 },
        ..p
    }
}

/// A TIMER as a periodic countdown.
///
/// The counter has the TIMER's greatest width (32 bits for TIMER0, 16 bits
/// otherwise), and CC0's shortcut clears it on every match, so once started
/// the countdown fires once per period with no software re-arming.
pub struct CountDownTimer {
    timer: HiResTimer,
}

impl CountDownTimer {
    /// The registers of the TIMER.
    pub closed spec fn peripheral(&self) -> TimerPeripheral {
        self.timer.peripheral()
    }

    /// The TIMER has its greatest width and the periodic shortcut setting.
    pub closed spec fn wf(&self) -> bool {
        &&& self.timer.wf()
        &&& self.timer.width_spec() == max_width_of(self.timer.peripheral().instance)
        &&& periodic_shortcuts(self.timer.peripheral())
    }

    /// The largest number of ticks the countdown can be started for.
    pub closed spec fn max_ticks(&self) -> nat {
        self.timer.width_spec().max_ticks()
    }

    /// A countdown started for `n` ticks, with `n` at least one, counts
    /// periodically towards `n`; `lemma_periodic_fires_every_period` then
    /// applies to it.
    pub proof fn lemma_started_is_periodic(&self, n: nat)
        requires
            self.wf(),
            self.peripheral().running,
            self.peripheral().counter == 0,
            self.peripheral().ch0.cc == n,
            1 <= n <= self.max_ticks(),
        ensures
            periodic_at(self.peripheral(), n),
    {
    }

    /// Takes the TIMER over as a countdown at `frequency`.
    pub fn new(timer: TimerPeripheral, frequency: TimerFrequency) -> (r: CountDownTimer)
        ensures
            r.wf(),
            r.max_ticks() == max_width_of(timer.instance).max_ticks(),
            r.peripheral() == countdown_timer_initial(timer.instance, frequency),
    {
        let mut t = HiResTimer::as_max_width_timer(timer);
        t.set_frequency(frequency);
        t.enable_auto_clear(TimerCc::CC0);
        CountDownTimer { timer: t }
    }

    /// The registers of the TIMER, as the driver last left them.
    pub fn registers(&self) -> (r: &TimerPeripheral)
        ensures
            *r == self.peripheral(),
    {
        self.timer.registers()
    }

    /// Records that the hardware counter reached CC0 while running: the
    /// COMPARE event of CC0 is set and the CLEAR shortcut has already put the
    /// counter back to zero, so the next period has begun.
    pub fn observe_match(&mut self)
        requires
            old(self).wf(),
            old(self).peripheral().running,
        ensures
            final(self).wf(),
            final(self).max_ticks() == old(self).max_ticks(),
            final(self).peripheral() == timer_cc0_matched(old(self).peripheral()),
    {
        self.timer.record_cc0_match();
    }

    /// Stops the TIMER and gives its registers back.
    pub fn free(self) -> (r: TimerPeripheral)
        ensures
            r == (TimerPeripheral { running: false, ..self.peripheral() }),
    {
        self.timer.free()
    }

    /// The countdown's frequency.
    pub fn frequency(&self) -> (r: TimerFrequency)
        requires
            self.wf(),
        ensures
            r == timer_frequency_of(self.peripheral().prescaler as nat),
    {
        self.timer.frequency()
    }

    /// Arms the countdown for `count` (ticks of the 16 MHz clock, converted
    /// to the countdown's frequency and rounded down). A count whose tick
    /// number does not fit the counter's width returns `ConversionOverflow`
    /// and changes nothing.
    pub fn start(&mut self, count: Hfticks) -> (r: Result<(), TimerError>)
        requires
            old(self).wf(),
        ensures
            final(self).wf(),
            final(self).max_ticks() == old(self).max_ticks(),
            ({
                let f = timer_frequency_of(old(self).peripheral().prescaler as nat);
                let ticks = count.0 as nat / f.divisor();
                &&& r is Ok <==> ticks <= old(self).max_ticks()
                &&& r is Ok ==> final(self).peripheral() == timer_armed(
                    old(self).peripheral(),
                    ticks as u32,
                )
                &&& r is Err ==> r == Err::<(), TimerError>(TimerError::ConversionOverflow)
                    && final(self).peripheral() == old(self).peripheral()
            }),
    {
        let f = self.timer.frequency();
        let ticks = match f.scale(count.0) {
            Some(t) => t,
            None => {
                return Err(TimerError::ConversionOverflow);
            },
        };
        let ticks = match self.timer.width().try_from_u32(ticks) {
            Ok(t) => t,
            Err(_) => {
                return Err(TimerError::ConversionOverflow);
            },
        };
        self.timer.stop();
        self.timer.clear_compare_event(TimerCc::CC0);
        let written = self.timer.set_compare_register(TimerCc::CC0, ticks);
        assert(written is Ok);
        self.timer.clear();
        self.timer.start();
        Ok(())
    }

    /// Polls the countdown once: `Ok` and the event cleared if it fired since
    /// the last poll, `WouldBlock` and nothing changed otherwise.
    pub fn wait(&mut self) -> (r: Result<(), WouldBlock>)
        requires
            old(self).wf(),
        ensures
            final(self).wf(),
            final(self).max_ticks() == old(self).max_ticks(),
            r is Ok <==> old(self).peripheral().ch0.event,
            final(self).peripheral() == (TimerPeripheral {
                ch0: CompareChannel { event: false, ..old(self).peripheral().ch0 },
                ..old(self).peripheral()
            }),
    {
        if self.timer.poll_compare_event(TimerCc::CC0) {
            Ok(())
        } else {
            Err(WouldBlock)
        }
    }

    /// Lets `n` periods of the TIMER's clock pass.
    pub fn advance(&mut self, n: u32)
        requires
            old(self).wf(),
        ensures
            final(self).wf(),
            final(self).max_ticks() == old(self).max_ticks(),
            final(self).peripheral() == old(self).peripheral().ticked_n(n as nat),
    {
        proof {
            self.timer.peripheral().lemma_ticks_keep_configuration(n as nat);
        }
        self.timer.advance(n);
    }
}

/// An RTC block armed for `ticks`: counting from zero, with `ticks` in CC0,
/// CC0's event enabled and its flag clear.
pub open spec fn rtc_armed(p: RtcPeripheral, ticks: u32) -> RtcPeripheral {
    RtcPeripheral {
        running: true,
        counter: 0,
        ch0: RtcChannel { cc: ticks, event: false, event_enabled: true, ..p.ch0 },
        ..p
    }
}

/// The block of an RTC that a `CountDownRtc` or `DelayRtc` at `frequency`
/// just took over: stopped and cleared, with the PRESCALER of `frequency`,
/// every present CC register, event and interrupt at reset, and CC0's
/// COMPARE event as the only enabled event.
pub open spec fn countdown_rtc_initial(rtc: RtcPeripheral, frequency: RtcFrequency) -> RtcPeripheral {
    let c = configured_rtc(rtc);
    RtcPeripheral {
        prescaler: frequency.prescaler() as u32,
        ch0: RtcChannel { event_enabled: true, ..c.ch0 },
        ..c
    }
}

/// An RTC block after its counter reached CC0 with CC0's event enabled: the
/// COMPARE event of CC0 is set and the counter holds CC0's value.
pub open spec fn rtc_cc0_matched(p: RtcPeripheral) -> RtcPeripheral {
    RtcPeripheral { counter: p.ch0.cc, ch0: RtcChannel { event: true, ..p.ch0 }, ..p }
}

/// Whether a one-shot countdown stays armed after a poll that found the
/// event `fired`: a poll that fires disarms it.
pub open spec fn armed_after_wait(armed: bool, fired: bool) -> bool {
    armed && !fired
}

/// A one-shot countdown fires at most once per `start`: after a poll that
/// fired it is no longer armed, so a second `wait` without a new `start` is
/// refused by `wait`'s precondition.
pub proof fn lemma_one_shot_second_wait_refused(armed: bool)
    ensures
        !armed_after_wait(armed, true),
{
}

/// An RTC as a one-shot countdown.
///
/// Once the countdown fires, `wait` stops the RTC; calling `wait` again
/// without a new `start` is a programming error, which the precondition of
/// `wait` rules out.
pub struct CountDownRtc {
    timer: LoResTimer,
    wait_allowed: bool,
}

impl CountDownRtc {
    /// The registers of the RTC.
    pub closed spec fn peripheral(&self) -> RtcPeripheral {
        self.timer.peripheral()
    }

    /// Whether the countdown is armed: started and not yet fired.
    pub closed spec fn armed(&self) -> bool {
        self.wait_allowed
    }

    /// The RTC's PRESCALER holds a valid value.
    pub closed spec fn wf(&self) -> bool {
        self.timer.wf()
    }

    /// Whether the countdown is armed: started and not yet fired.
    pub fn is_armed(&self) -> (r: bool)
        ensures
            r == self.armed(),
    {
        self.wait_allowed
    }

    /// Takes the RTC over as a countdown at `frequency`; it is not armed.
    pub fn new(timer: RtcPeripheral, frequency: RtcFrequency) -> (r: CountDownRtc)
        ensures
            r.wf(),
            !r.armed(),
            r.peripheral() == countdown_rtc_initial(timer, frequency),
    {
        let mut t = LoResTimer::new(timer);
        t.set_frequency(frequency);
        t.enable_compare_event(RtcCc::CC0);
        CountDownRtc { timer: t, wait_allowed: false }
    }

    /// The registers of the RTC, as the driver last left them.
    pub fn registers(&self) -> (r: &RtcPeripheral)
        ensures
            *r == self.peripheral(),
    {
        self.timer.registers()
    }

    /// Records that the hardware counter of an armed countdown reached CC0:
    /// the COMPARE event of CC0 is set and the counter holds CC0's value.
    pub fn observe_match(&mut self)
        requires
            old(self).wf(),
            old(self).armed(),
        ensures
            final(self).wf(),
            final(self).armed(),
            final(self).peripheral() == rtc_cc0_matched(old(self).peripheral()),
    {
        self.timer.record_cc0_match();
    }

    /// Stops the RTC and gives its registers back.
    pub fn free(self) -> (r: RtcPeripheral)
        ensures
            r == (RtcPeripheral { running: false, ..self.peripheral() }),
    {
        self.timer.free()
    }

    /// Arms the countdown for `count` (ticks of the 32768 Hz clock, converted
    /// to the countdown's frequency and rounded down). A count of 2^24 ticks
    /// or more returns `ConversionOverflow` and changes nothing.
    pub fn start(&mut self, count: Lfticks) -> (r: Result<(), TimerError>)
        requires
            old(self).wf(),
        ensures
            final(self).wf(),
            ({
                let ticks = count.0 as nat / (old(self).peripheral().prescaler as nat + 1);
                &&& r is Ok <==> ticks <= RTC_MAX_COMPARE
                &&& r is Ok ==> final(self).peripheral() == rtc_armed(
                    old(self).peripheral(),
                    ticks as u32,
                ) && final(self).armed()
                &&& r is Err ==> r == Err::<(), TimerError>(TimerError::ConversionOverflow)
                    && final(self).peripheral() == old(self).peripheral() && final(self).armed()
                    == old(self).armed()
            }),
    {
        let f = self.timer.frequency();
        let ticks = match f.scale(count.0) {
            Some(t) => t,
            None => {
                return Err(TimerError::ConversionOverflow);
            },
        };
        if ticks > RTC_MAX_COMPARE {
            return Err(TimerError::ConversionOverflow);
        }
        self.timer.stop();
        self.timer.clear_compare_event(RtcCc::CC0);
        let written = self.timer.set_compare_register(RtcCc::CC0, ticks);
        assert(written is Ok);
        self.timer.clear();
        self.timer.start();
        self.wait_allowed = true;
        Ok(())
    }

    /// Polls the countdown once. If it fired: clears the event, stops the
    /// RTC, disarms the countdown and returns `Ok`. Otherwise returns
    /// `WouldBlock` and changes nothing.
    pub fn wait(&mut self) -> (r: Result<(), WouldBlock>)
        requires
            old(self).wf(),
            old(self).armed(),
        ensures
            final(self).wf(),
            r is Ok <==> old(self).peripheral().ch0.event,
            final(self).armed() == armed_after_wait(old(self).armed(), r is Ok),
            final(self).peripheral() == (RtcPeripheral {
                running: old(self).peripheral().running && r is Err,
                ch0: RtcChannel { event: false, ..old(self).peripheral().ch0 },
                ..old(self).peripheral()
            }),
    {
        if self.timer.poll_compare_event(RtcCc::CC0) {
            self.wait_allowed = false;
            self.timer.stop();
            Ok(())
        } else {
            Err(WouldBlock)
        }
    }

    /// Lets `n` periods of the RTC's clock pass.
    pub fn advance(&mut self, n: u32)
        requires
            old(self).wf(),
        ensures
            final(self).wf(),
            final(self).armed() == old(self).armed(),
            final(self).peripheral() == old(self).peripheral().ticked_n(n as nat),
    {
        self.timer.advance(n);
    }
}

/// TIMER0 as a periodic countdown at 1 MHz with a 32-bit counter (up to
/// about 71 minutes).
pub struct Timer(CountDownTimer);

impl Timer {
    /// The registers of TIMER0.
    pub closed spec fn peripheral(&self) -> TimerPeripheral {
        self.0.peripheral()
    }

    /// The countdown is well formed.
    pub closed spec fn wf(&self) -> bool {
        &&& self.0.wf()
        &&& self.0.max_ticks() == 0xffff_ffff
        &&& self.0.peripheral().prescaler == 4
    }

    /// Takes TIMER0 over as a 1 MHz countdown.
    pub fn new(timer: TimerPeripheral) -> (r: Timer)
        requires
            timer.instance == TimerInstance::TIMER0,
        ensures
            r.wf(),
            !r.peripheral().running,
    {
        Timer(CountDownTimer::new(timer, TimerFrequency::Freq1MHz))
    }

    /// The registers of TIMER0, as the driver last left them.
    pub fn registers(&self) -> (r: &TimerPeripheral)
        ensures
            *r == self.peripheral(),
    {
        self.0.registers()
    }

    /// Records that the hardware counter reached CC0 while running, as
    /// `CountDownTimer::observe_match`.
    pub fn observe_match(&mut self)
        requires
            old(self).wf(),
            old(self).peripheral().running,
        ensures
            final(self).wf(),
            final(self).peripheral() == timer_cc0_matched(old(self).peripheral()),
    {
        self.0.observe_match()
    }

    /// Stops TIMER0 and gives its registers back.
    pub fn free(self) -> (r: TimerPeripheral)
        ensures
            r == (TimerPeripheral { running: false, ..self.peripheral() }),
    {
        self.0.free()
    }

    /// Arms the countdown for `count`, at one tick per 16 ticks of the 16 MHz
    /// clock; `ConversionOverflow` if that exceeds 32 bits.
    pub fn start(&mut self, count: Hfticks) -> (r: Result<(), TimerError>)
        requires
            old(self).wf(),
        ensures
            final(self).wf(),
            r is Ok <==> count.0 / 16 <= u32::MAX,
            r is Ok ==> final(self).peripheral() == timer_armed(
                old(self).peripheral(),
                (count.0 / 16) as u32,
            ),
            r is Err ==> r == Err::<(), TimerError>(TimerError::ConversionOverflow)
                && final(self).peripheral() == old(self).peripheral(),
    {
        self.0.start(count)
    }

    /// Polls the countdown once, as `CountDownTimer::wait`.
    pub fn wait(&mut self) -> (r: Result<(), WouldBlock>)
        requires
            old(self).wf(),
        ensures
            final(self).wf(),
            r is Ok <==> old(self).peripheral().ch0.event,
            final(self).peripheral() == (TimerPeripheral {
                ch0: CompareChannel { event: false, ..old(self).peripheral().ch0 },
                ..old(self).peripheral()
            }),
    {
        self.0.wait()
    }

    /// Lets `n` microseconds (ticks of TIMER0) pass.
    pub fn advance(&mut self, n: u32)
        requires
            old(self).wf(),
        ensures
            final(self).wf(),
            final(self).peripheral() == old(self).peripheral().ticked_n(n as nat),
    {
        proof {
            self.0.peripheral().lemma_ticks_keep_configuration(n as nat);
        }
        self.0.advance(n)
    }
}

} // verus!
