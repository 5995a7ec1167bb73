//! The RTC (real time counter) peripherals: a wrapper that corresponds
//! closely to the registers, tasks and events of an RTC.
//!
//! The RTCs count the 32.768 kHz low-frequency clock, which must be running.
//! Their counter and compare range is 24 bits at every frequency. A START,
//! STOP or CLEAR task takes effect 15 to 46 µs after it is triggered.

use vstd::prelude::*;

use crate::error::{OverValueError, TimerError};
use crate::narrow::narrow_to_u32;
use crate::peripheral::{RtcChannel, RtcPeripheral};
use crate::time::Hertz;

pub use crate::peripheral::RtcCc;

verus! {

/// The largest value of an RTC's 12-bit PRESCALER register.
pub const RTC_MAX_PRESCALER: u32 = 4095;

/// The largest value an RTC compare register accepts (2^24 - 1).
pub const RTC_MAX_COMPARE: u32 = 0xff_ffff;

/// The counter value that the TRIGOVRFLW task sets.
pub const RTC_OVERFLOW_SOON: u32 = 0xff_fff0;

/// An RTC frequency: 32768 Hz / (prescaler + 1), for a 12-bit prescaler.
#[derive(Debug, Clone, Copy)]
pub struct RtcFrequency(u16);

impl RtcFrequency {
    #[verifier::type_invariant]
    spec fn fits(self) -> bool {
        self.0 <= RTC_MAX_PRESCALER
    }

    /// The PRESCALER value of this frequency.
    pub closed spec fn prescaler(self) -> u16 {
        self.0
    }

    /// Returns the frequency with PRESCALER value `i`, or a configuration
    /// error for a value of 2^12 or more.
    pub fn from_prescaler(i: u32) -> (r: Result<RtcFrequency, TimerError>)
        ensures
            r is Ok <==> i <= RTC_MAX_PRESCALER,
            r matches Ok(f) ==> f.prescaler() == i,
            r is Err ==> r == Err::<RtcFrequency, TimerError>(
                TimerError::ConfigurationError(
                    OverValueError { value: i, upper_bound: RTC_MAX_PRESCALER },
                ),
            ),
    {
        if i <= RTC_MAX_PRESCALER {
            Ok(RtcFrequency(i as u16))
        } else {
            Err(
                TimerError::ConfigurationError(
                    OverValueError { value: i, upper_bound: RTC_MAX_PRESCALER },
                ),
            )
        }
    }

    /// The frequency with PRESCALER value `i`.
    pub fn const_from_prescaler(i: u16) -> (r: RtcFrequency)
        requires
            i <= RTC_MAX_PRESCALER,
        ensures
            r.prescaler() == i,
    {
        RtcFrequency(i)
    }

    /// Returns the prescaler value.
    pub fn as_prescaler(self) -> (r: u32)
        ensures
            r == self.prescaler(),
            r <= RTC_MAX_PRESCALER,
    {
        proof {
            use_type_invariant(self);
        }
        self.0 as u32
    }

    /// This frequency in hertz, rounded down: 32768 / (prescaler + 1).
    pub fn hertz(self) -> (r: Hertz)
        ensures
            r.0 == 32768nat / (self.prescaler() as nat + 1),
    {
        Hertz(32768 / (self.as_prescaler() + 1))
    }

    /// Converts a number of ticks of the 32768 Hz clock to the number of
    /// ticks of an RTC at this frequency, rounding down; `None` when the
    /// result does not fit in 32 bits (a result of 2^24 or more fits, but no
    /// compare register can hold it).
    pub fn scale(self, base_ticks: u64) -> (r: Option<u32>)
        ensures
            r is Some <==> base_ticks as nat / (self.prescaler() as nat + 1) <= u32::MAX,
            r matches Some(t) ==> t == base_ticks as nat / (self.prescaler() as nat + 1),
    {
        let q = base_ticks / (self.as_prescaler() as u64 + 1);
        narrow_to_u32(q)
    }
}

/// The block of an RTC just after a `LoResTimer` took it over: stopped,
/// cleared, and every present register at its reset value.
pub open spec fn configured_rtc(rtc: RtcPeripheral) -> RtcPeripheral {
    RtcPeripheral {
        ch3: if rtc.instance.has_register_spec(RtcCc::CC3) {
            RtcChannel::reset_spec()
        } else {
            rtc.ch3
        },
        ..RtcPeripheral::reset_spec(rtc.instance)
    }
}

/// An RTC peripheral.
///
/// Every method that names a compare register requires that the RTC has it:
/// RTC0 lacks CC3.
pub struct LoResTimer {
    rtc: RtcPeripheral,
}

impl LoResTimer {
    /// The registers of the RTC.
    pub closed spec fn peripheral(&self) -> RtcPeripheral {
        self.rtc
    }

    /// PRESCALER holds a 12-bit value.
    pub open spec fn wf(&self) -> bool {
        self.peripheral().prescaler <= RTC_MAX_PRESCALER
    }

    /// Whether this RTC has compare register `r`.
    pub open spec fn has_register_spec(&self, r: RtcCc) -> bool {
        self.peripheral().instance.has_register_spec(r)
    }

    /// The registers of the RTC, as the driver last left them.
    pub fn registers(&self) -> (r: &RtcPeripheral)
        ensures
            *r == self.peripheral(),
    {
        &self.rtc
    }

    /// Returns true if this RTC has compare register `r`.
    pub fn has_register(&self, r: RtcCc) -> (b: bool)
        ensures
            b == self.has_register_spec(r),
    {
        self.rtc.instance.has_register(r)
    }

    /// Takes the RTC over: stops it and resets every other register, so the
    /// counter is zero, the frequency 32768 Hz, and no event or interrupt is
    /// enabled or pending.
    pub fn new(rtc: RtcPeripheral) -> (r: LoResTimer)
        ensures
            r.wf(),
            r.peripheral() == configured_rtc(rtc),
    {
        let mut l = LoResTimer { rtc };
        l.rtc.running = false;
        l.rtc.counter = 0;
        l.rtc.prescaler = 0;
        l.rtc.ch0 = RtcChannel::reset();
        l.rtc.ch1 = RtcChannel::reset();
        l.rtc.ch2 = RtcChannel::reset();
        if l.rtc.instance.has_register(RtcCc::CC3) {
            l.rtc.ch3 = RtcChannel::reset();
        }
        l.rtc.tick_event = false;
        l.rtc.tick_event_enabled = false;
        l.rtc.tick_interrupt = false;
        l.rtc.overflow_event = false;
        l.rtc.overflow_event_enabled = false;
        l.rtc.overflow_interrupt = false;
        l
    }

    /// Stops the RTC and gives its registers back.
    pub fn free(self) -> (r: RtcPeripheral)
        ensures
            r == (RtcPeripheral { running: false, ..self.peripheral() }),
    {
        let mut t = self.rtc;
        t.running = false;
        t
    }

    /// Returns the RTC's current frequency, read from the PRESCALER register.
    pub fn frequency(&self) -> (r: RtcFrequency)
        requires
            self.wf(),
        ensures
            r.prescaler() == self.peripheral().prescaler,
    {
        RtcFrequency::const_from_prescaler(self.rtc.prescaler as u16)
    }

    /// Stops the RTC and sets its frequency.
    pub fn set_frequency(&mut self, frequency: RtcFrequency)
        ensures
            final(self).wf(),
            final(self).peripheral() == (RtcPeripheral {
                running: false,
                prescaler: frequency.prescaler() as u32,
                ..old(self).peripheral()
            }),
    {
        let p = frequency.as_prescaler();
        self.stop();
        self.rtc.prescaler = p;
    }

    /// Returns the counter value.
    pub fn read_counter(&self) -> (r: u32)
        ensures
            r == self.peripheral().counter,
    {
        self.rtc.counter
    }

    /// Stores `ticks` in compare register `register` and enables its COMPARE
    /// event, without which no match is observed; or returns a configuration
    /// error, changing nothing, for a value of 2^24 or more.
    pub fn set_compare_register(&mut self, register: RtcCc, ticks: u32) -> (r: Result<
        (),
        TimerError,
    >)
        requires
            old(self).has_register_spec(register),
        ensures
            r is Ok <==> ticks <= RTC_MAX_COMPARE,
            r is Ok ==> final(self).peripheral() == old(self).peripheral().with_channel(
                register,
                RtcChannel {
                    cc: ticks,
                    event_enabled: true,
                    ..old(self).peripheral().channel(register)
                },
            ),
            r is Err ==> final(self).peripheral() == old(self).peripheral() && r == Err::<
                (),
                TimerError,
            >(
                TimerError::ConfigurationError(
                    OverValueError { value: ticks, upper_bound: RTC_MAX_COMPARE },
                ),
            ),
    {
        if ticks <= RTC_MAX_COMPARE {
            let ch = self.rtc.get_channel(register);
            self.rtc.set_channel(register, RtcChannel { cc: ticks, event_enabled: true, ..ch });
            Ok(())
        } else {
            Err(
                TimerError::ConfigurationError(
                    OverValueError { value: ticks, upper_bound: RTC_MAX_COMPARE },
                ),
            )
        }
    }

    /// Returns the value stored in compare register `register`.
    pub fn compare_register(&self, register: RtcCc) -> (r: u32)
        requires
            self.has_register_spec(register),
        ensures
            r == self.peripheral().channel(register).cc,
    {
        self.rtc.get_channel(register).cc
    }

    /// Resets the counter to zero; a running RTC goes on running.
    pub fn clear(&mut self)
        ensures
            final(self).peripheral() == (RtcPeripheral { counter: 0, ..old(self).peripheral() }),
    {
        self.rtc.counter = 0;
    }

    /// Starts the RTC.
    pub fn start(&mut self)
        ensures
            final(self).peripheral() == (RtcPeripheral { running: true, ..old(self).peripheral() }),
    {
        self.rtc.running = true;
    }

    /// Stops the RTC.
    pub fn stop(&mut self)
        ensures
            final(self).peripheral() == (RtcPeripheral {
                running: false,
                ..old(self).peripheral()
            }),
    {
        self.rtc.running = false;
    }

    /// Sets the counter to 0xFFFFF0, so that it overflows shortly afterwards.
    pub fn trigger_overflow(&mut self)
        ensures
            final(self).peripheral() == (RtcPeripheral {
                counter: RTC_OVERFLOW_SOON,
                ..old(self).peripheral()
            }),
    {
        self.rtc.counter = RTC_OVERFLOW_SOON;
    }

    fn update_channel(&mut self, register: RtcCc, ch: RtcChannel)
        ensures
            final(self).peripheral() == old(self).peripheral().with_channel(register, ch),
    {
        self.rtc.set_channel(register, ch);
    }

    /// Enables the COMPARE event of `register`: generated when the counter
    /// reaches the register's value.
    pub fn enable_compare_event(&mut self, register: RtcCc)
        requires
            old(self).has_register_spec(register),
        ensures
            final(self).peripheral() == old(self).peripheral().with_channel(
                register,
                RtcChannel { event_enabled: true, ..old(self).peripheral().channel(register) },
            ),
    {
        let ch = self.rtc.get_channel(register);
        self.update_channel(register, RtcChannel { event_enabled: true, ..ch });
    }

    /// Disables the COMPARE event of `register`.
    pub fn disable_compare_event(&mut self, register: RtcCc)
        requires
            old(self).has_register_spec(register),
        ensures
            final(self).peripheral() == old(self).peripheral().with_channel(
                register,
                RtcChannel { event_enabled: false, ..old(self).peripheral().channel(register) },
            ),
    {
        let ch = self.rtc.get_channel(register);
        self.update_channel(register, RtcChannel { event_enabled: false, ..ch });
    }

    /// Enables the TICK event: generated on every increment of the counter.
    pub fn enable_tick_event(&mut self)
        ensures
            final(self).peripheral() == (RtcPeripheral {
                tick_event_enabled: true,
                ..old(self).peripheral()
            }),
    {
        self.rtc.tick_event_enabled = true;
    }

    /// Disables the TICK event.
    pub fn disable_tick_event(&mut self)
        ensures
            final(self).peripheral() == (RtcPeripheral {
                tick_event_enabled: false,
                ..old(self).peripheral()
            }),
    {
        self.rtc.tick_event_enabled = false;
    }

    /// Enables the OVRFLW event: generated when the counter wraps from
    /// 0xFFFFFF to 0.
    pub fn enable_overflow_event(&mut self)
        ensures
            final(self).peripheral() == (RtcPeripheral {
                overflow_event_enabled: true,
                ..old(self).peripheral()
            }),
    {
        self.rtc.overflow_event_enabled = true;
    }

    /// Disables the OVRFLW event.
    pub fn disable_overflow_event(&mut self)
        ensures
            final(self).peripheral() == (RtcPeripheral {
                overflow_event_enabled: false,
                ..old(self).peripheral()
            }),
    {
        self.rtc.overflow_event_enabled = false;
    }

    /// Enables the interrupt of compare register `register`. The event must
    /// be enabled as well; the handler should clear the event flag.
    pub fn enable_compare_interrupt(&mut self, register: RtcCc)
        requires
            old(self).has_register_spec(register),
        ensures
            final(self).peripheral() == old(self).peripheral().with_channel(
                register,
                RtcChannel { interrupt: true, ..old(self).peripheral().channel(register) },
            ),
    {
        let ch = self.rtc.get_channel(register);
        self.update_channel(register, RtcChannel { interrupt: true, ..ch });
    }

    /// Disables the interrupt of compare register `register`.
    pub fn disable_compare_interrupt(&mut self, register: RtcCc)
        requires
            old(self).has_register_spec(register),
        ensures
            final(self).peripheral() == old(self).peripheral().with_channel(
                register,
                RtcChannel { interrupt: false, ..old(self).peripheral().channel(register) },
            ),
    {
        let ch = self.rtc.get_channel(register);
        self.update_channel(register, RtcChannel { interrupt: false, ..ch });
    }

    /// Enables the interrupt of the TICK event.
    pub fn enable_tick_interrupt(&mut self)
        ensures
            final(self).peripheral() == (RtcPeripheral {
                tick_interrupt: true,
                ..old(self).peripheral()
            }),
    {
        self.rtc.tick_interrupt = true;
    }

    /// Disables the interrupt of the TICK event.
    pub fn disable_tick_interrupt(&mut self)
        ensures
            final(self).peripheral() == (RtcPeripheral {
                tick_interrupt: false,
                ..old(self).peripheral()
            }),
    {
        self.rtc.tick_interrupt = false;
    }

    /// Enables the interrupt of the OVRFLW event.
    pub fn enable_overflow_interrupt(&mut self)
        ensures
            final(self).peripheral() == (RtcPeripheral {
                overflow_interrupt: true,
                ..old(self).peripheral()
            }),
    {
        self.rtc.overflow_interrupt = true;
    }

    /// Disables the interrupt of the OVRFLW event.
    pub fn disable_overflow_interrupt(&mut self)
        ensures
            final(self).peripheral() == (RtcPeripheral {
                overflow_interrupt: false,
                ..old(self).peripheral()
            }),
    {
        self.rtc.overflow_interrupt = false;
    }

    /// Returns the COMPARE event flag of compare register `register`.
    pub fn read_compare_event(&self, register: RtcCc) -> (r: bool)
        requires
            self.has_register_spec(register),
        ensures
            r == self.peripheral().channel(register).event,
    {
        self.rtc.get_channel(register).event
    }

    /// Clears the COMPARE event flag of compare register `register`.
    pub fn clear_compare_event(&mut self, register: RtcCc)
        requires
            old(self).has_register_spec(register),
        ensures
            final(self).peripheral() == old(self).peripheral().with_channel(
                register,
                RtcChannel { event: false, ..old(self).peripheral().channel(register) },
            ),
    {
        let ch = self.rtc.get_channel(register);
        self.update_channel(register, RtcChannel { event: false, ..ch });
    }

    /// Checks and clears the COMPARE event flag of compare register
    /// `register`: returns whether the counter reached the register's value,
    /// with the event enabled, since the flag was last cleared.
    pub fn poll_compare_event(&mut self, register: RtcCc) -> (r: bool)
        requires
            old(self).has_register_spec(register),
        ensures
            r == old(self).peripheral().channel(register).event,
            final(self).peripheral() == old(self).peripheral().with_channel(
                register,
                RtcChannel { event: false, ..old(self).peripheral().channel(register) },
            ),
    {
        let fired = self.read_compare_event(register);
        if fired {
            self.clear_compare_event(register);
        }
        fired
    }

    /// Returns the TICK event flag.
    pub fn read_tick_event(&self) -> (r: bool)
        ensures
            r == self.peripheral().tick_event,
    {
        self.rtc.tick_event
    }

    /// Clears the TICK event flag.
    pub fn clear_tick_event(&mut self)
        ensures
            final(self).peripheral() == (RtcPeripheral {
                tick_event: false,
                ..old(self).peripheral()
            }),
    {
        self.rtc.tick_event = false;
    }

    /// Checks and clears the TICK event flag.
    pub fn poll_tick_event(&mut self) -> (r: bool)
        ensures
            r == old(self).peripheral().tick_event,
            final(self).peripheral() == (RtcPeripheral {
                tick_event: false,
                ..old(self).peripheral()
            }),
    {
        let fired = self.read_tick_event();
        if fired {
            self.clear_tick_event();
        }
        fired
    }

    /// Returns the OVRFLW event flag.
    pub fn read_overflow_event(&self) -> (r: bool)
        ensures
            r == self.peripheral().overflow_event,
    {
        self.rtc.overflow_event
    }

    /// Clears the OVRFLW event flag.
    pub fn clear_overflow_event(&mut self)
        ensures
            final(self).peripheral() == (RtcPeripheral {
                overflow_event: false,
                ..old(self).peripheral()
            }),
    {
        self.rtc.overflow_event = false;
    }

    /// Checks and clears the OVRFLW event flag.
    pub fn poll_overflow_event(&mut self) -> (r: bool)
        ensures
            r == old(self).peripheral().overflow_event,
            final(self).peripheral() == (RtcPeripheral {
                overflow_event: false,
                ..old(self).peripheral()
            }),
    {
        let fired = self.read_overflow_event();
        if fired {
            self.clear_overflow_event();
        }
        fired
    }

    /// Records a match of the hardware counter with CC0, with CC0's event
    /// enabled: the COMPARE event of CC0 is set and the counter holds CC0's
    /// value.
    pub fn record_cc0_match(&mut self)
        ensures
            final(self).peripheral() == (RtcPeripheral {
                counter: old(self).peripheral().ch0.cc,
                ch0: RtcChannel { event: true, ..old(self).peripheral().ch0 },
                ..old(self).peripheral()
            }),
    {
        self.rtc.counter = self.rtc.ch0.cc;
        self.rtc.ch0 = RtcChannel { event: true, ..self.rtc.ch0 };
    }

    /// Lets `n` periods of the RTC's clock pass.
    pub fn advance(&mut self, n: u32)
        requires
            old(self).wf(),
        ensures
            final(self).wf(),
            final(self).peripheral() == old(self).peripheral().ticked_n(n as nat),
    {
        proof {
            self.rtc.lemma_ticks_keep_prescaler(n as nat);
        }
        self.rtc.advance(n);
    }
}

/// A compare value that `set_compare_register` accepted is read back
/// unchanged by `compare_register`, with its event enabled.
pub proof fn lemma_rtc_compare_round_trip(p: RtcPeripheral, register: RtcCc, ticks: u32)
    ensures
        ({
            let q = p.with_channel(
                register,
                RtcChannel { cc: ticks, event_enabled: true, ..p.channel(register) },
            );
            q.channel(register).cc == ticks && q.channel(register).event_enabled
        }),
{
}

} // verus!
