//! The TIMER peripherals: a wrapper that corresponds closely to the
//! registers, tasks and events of a TIMER in timer mode.

use vstd::arithmetic::power2::{lemma2_to64, pow2};
use vstd::prelude::*;

use crate::error::{OverValueError, TimerError};
use crate::narrow::narrow_to_u32;
use crate::peripheral::{CompareChannel, TimerInstance, TimerPeripheral, TIMER_PRESCALER_RESET};
use crate::time::Hertz;
use crate::width::TimerWidth;

pub use crate::peripheral::TimerCc;

verus! {

/// The largest value of a TIMER's PRESCALER register.
pub const TIMER_MAX_PRESCALER: u32 = 9;

/// One of the frequencies a TIMER can count at: 16 MHz / 2^prescaler.
#[derive(Debug, Clone, Copy, PartialEq, Eq, Structural)]
pub enum TimerFrequency {
    Freq16MHz,
    Freq8MHz,
    Freq4MHz,
    Freq2MHz,
    Freq1MHz,
    Freq500kHz,
    Freq250kHz,
    Freq125kHz,
    Freq62500Hz,
    Freq31250Hz,
}

/// The frequency whose PRESCALER value is `p`, for `p` up to 9.
pub open spec fn timer_frequency_of(p: nat) -> TimerFrequency {
    if p == 0 {
        TimerFrequency::Freq16MHz
    } else if p == 1 {
        TimerFrequency::Freq8MHz
    } else if p == 2 {
        TimerFrequency::Freq4MHz
    } else if p == 3 {
        TimerFrequency::Freq2MHz
    } else if p == 4 {
        TimerFrequency::Freq1MHz
    } else if p == 5 {
        TimerFrequency::Freq500kHz
    } else if p == 6 {
        TimerFrequency::Freq250kHz
    } else if p == 7 {
        TimerFrequency::Freq125kHz
    } else if p == 8 {
        TimerFrequency::Freq62500Hz
    } else {
        TimerFrequency::Freq31250Hz
    }
}

impl TimerFrequency {
    /// The PRESCALER value of this frequency.
    pub open spec fn prescaler(self) -> nat {
        match self {
            TimerFrequency::Freq16MHz => 0,
            TimerFrequency::Freq8MHz => 1,
            TimerFrequency::Freq4MHz => 2,
            TimerFrequency::Freq2MHz => 3,
            TimerFrequency::Freq1MHz => 4,
            TimerFrequency::Freq500kHz => 5,
            TimerFrequency::Freq250kHz => 6,
            TimerFrequency::Freq125kHz => 7,
            TimerFrequency::Freq62500Hz => 8,
            TimerFrequency::Freq31250Hz => 9,
        }
    }

    /// The factor by which this frequency divides the 16 MHz clock.
    pub open spec fn divisor(self) -> nat {
        match self {
            TimerFrequency::Freq16MHz => 1,
            TimerFrequency::Freq8MHz => 2,
            TimerFrequency::Freq4MHz => 4,
            TimerFrequency::Freq2MHz => 8,
            TimerFrequency::Freq1MHz => 16,
            TimerFrequency::Freq500kHz => 32,
            TimerFrequency::Freq250kHz => 64,
            TimerFrequency::Freq125kHz => 128,
            TimerFrequency::Freq62500Hz => 256,
            TimerFrequency::Freq31250Hz => 512,
        }
    }

    /// Returns the value used in the PRESCALER register for this frequency.
    pub fn as_prescaler(self) -> (r: u32)
        ensures
            r == self.prescaler(),
            r <= TIMER_MAX_PRESCALER,
    {
        match self {
            TimerFrequency::Freq16MHz => 0,
            TimerFrequency::Freq8MHz => 1,
            TimerFrequency::Freq4MHz => 2,
            TimerFrequency::Freq2MHz => 3,
            TimerFrequency::Freq1MHz => 4,
            TimerFrequency::Freq500kHz => 5,
            TimerFrequency::Freq250kHz => 6,
            TimerFrequency::Freq125kHz => 7,
            TimerFrequency::Freq62500Hz => 8,
            TimerFrequency::Freq31250Hz => 9,
        }
    }

    /// Returns the frequency for a PRESCALER value, or a configuration error
    /// for a value above 9.
    pub fn from_prescaler(prescaler: u32) -> (r: Result<TimerFrequency, TimerError>)
        ensures
            r is Ok <==> prescaler <= TIMER_MAX_PRESCALER,
            r matches Ok(f) ==> f == timer_frequency_of(prescaler as nat) && f.prescaler()
                == prescaler,
            r is Err ==> r == Err::<TimerFrequency, TimerError>(
                TimerError::ConfigurationError(
                    OverValueError { value: prescaler, upper_bound: TIMER_MAX_PRESCALER },
                ),
            ),
    {
        match prescaler {
            0 => Ok(TimerFrequency::Freq16MHz),
            1 => Ok(TimerFrequency::Freq8MHz),
            2 => Ok(TimerFrequency::Freq4MHz),
            3 => Ok(TimerFrequency::Freq2MHz),
            4 => Ok(TimerFrequency::Freq1MHz),
            5 => Ok(TimerFrequency::Freq500kHz),
            6 => Ok(TimerFrequency::Freq250kHz),
            7 => Ok(TimerFrequency::Freq125kHz),
            8 => Ok(TimerFrequency::Freq62500Hz),
            9 => Ok(TimerFrequency::Freq31250Hz),
            _ => Err(
                TimerError::ConfigurationError(
                    OverValueError { value: prescaler, upper_bound: TIMER_MAX_PRESCALER },
                ),
            ),
        }
    }

    /// The factor by which this frequency divides the 16 MHz clock.
    pub fn as_divisor(self) -> (r: u32)
        ensures
            r == self.divisor(),
    {
        match self {
            TimerFrequency::Freq16MHz => 1,
            TimerFrequency::Freq8MHz => 2,
            TimerFrequency::Freq4MHz => 4,
            TimerFrequency::Freq2MHz => 8,
            TimerFrequency::Freq1MHz => 16,
            TimerFrequency::Freq500kHz => 32,
            TimerFrequency::Freq250kHz => 64,
            TimerFrequency::Freq125kHz => 128,
            TimerFrequency::Freq62500Hz => 256,
            TimerFrequency::Freq31250Hz => 512,
        }
    }

    /// This frequency in hertz: 16 MHz / 2^prescaler.
    pub fn hertz(self) -> (r: Hertz)
        ensures
            r.0 == 16_000_000nat / self.divisor(),
    {
        Hertz(16_000_000 / self.as_divisor())
    }

    /// Converts a number of ticks of the 16 MHz clock to the number of ticks
    /// of a TIMER at this frequency, rounding down; `None` when the result
    /// does not fit in 32 bits.
    pub fn scale(self, base_ticks: u64) -> (r: Option<u32>)
        ensures
            r is Some <==> base_ticks as nat / self.divisor() <= u32::MAX,
            r matches Some(t) ==> t == base_ticks as nat / self.divisor(),
    {
        let q = base_ticks / (self.as_divisor() as u64);
        narrow_to_u32(q)
    }
}

/// Whether the TIMER `instance` can count with `width`: only TIMER0 has a
/// 32-bit counter.
pub open spec fn supports_width(instance: TimerInstance, width: TimerWidth) -> bool {
    width == TimerWidth::U32 ==> instance == TimerInstance::TIMER0
}

/// The widest counter of the TIMER `instance`.
pub open spec fn max_width_of(instance: TimerInstance) -> TimerWidth {
    if instance == TimerInstance::TIMER0 {
        TimerWidth::U32
    } else {
        TimerWidth::U16
    }
}

/// The block of a TIMER just after a `HiResTimer` of `width` took it over:
/// stopped, cleared, and every other register at its reset value but BITMODE.
pub open spec fn configured_timer(instance: TimerInstance, width: TimerWidth) -> TimerPeripheral {
    TimerPeripheral { bitmode: width.mode(), ..TimerPeripheral::reset_spec(instance) }
}

/// A TIMER in timer mode, with a fixed counter width.
///
/// Taking a TIMER over stops it, sets the width, and resets every other
/// register: the counter is zero, the frequency 1 MHz, and no event, shortcut
/// or interrupt is set. The PRESCALER and BITMODE registers are written only
/// while the counter is stopped.
pub struct HiResTimer {
    timer: TimerPeripheral,
    width: TimerWidth,
}

impl HiResTimer {
    /// The registers of the TIMER.
    pub closed spec fn peripheral(&self) -> TimerPeripheral {
        self.timer
    }

    /// The counter width.
    pub closed spec fn width_spec(&self) -> TimerWidth {
        self.width
    }

    /// BITMODE holds the width and PRESCALER a valid value.
    pub open spec fn wf(&self) -> bool {
        &&& self.peripheral().bitmode == self.width_spec().mode()
        &&& self.peripheral().prescaler <= TIMER_MAX_PRESCALER
        &&& supports_width(self.peripheral().instance, self.width_spec())
    }

    fn new(timer: TimerPeripheral, width: TimerWidth) -> (r: HiResTimer)
        requires
            supports_width(timer.instance, width),
        ensures
            r.wf(),
            r.width_spec() == width,
            r.peripheral() == configured_timer(timer.instance, width),
    {
        let mut h = HiResTimer { timer, width };
        h.timer.running = false;
        h.timer.counter = 0;
        h.timer.bitmode = width.bit_mode();
        h.timer.prescaler = TIMER_PRESCALER_RESET;
        h.timer.ch0 = CompareChannel::reset();
        h.timer.ch1 = CompareChannel::reset();
        h.timer.ch2 = CompareChannel::reset();
        h.timer.ch3 = CompareChannel::reset();
        h
    }

    /// Takes the TIMER over with an 8-bit counter.
    pub fn as_8bit_timer(timer: TimerPeripheral) -> (r: HiResTimer)
        ensures
            r.wf(),
            r.width_spec() == TimerWidth::U8,
            r.peripheral() == configured_timer(timer.instance, TimerWidth::U8),
    {
        HiResTimer::new(timer, TimerWidth::U8)
    }

    /// Takes the TIMER over with a 16-bit counter.
    pub fn as_16bit_timer(timer: TimerPeripheral) -> (r: HiResTimer)
        ensures
            r.wf(),
            r.width_spec() == TimerWidth::U16,
            r.peripheral() == configured_timer(timer.instance, TimerWidth::U16),
    {
        HiResTimer::new(timer, TimerWidth::U16)
    }

    /// Takes TIMER0 over with a 32-bit counter.
    pub fn as_32bit_timer(timer: TimerPeripheral) -> (r: HiResTimer)
        requires
            timer.instance == TimerInstance::TIMER0,
        ensures
            r.wf(),
            r.width_spec() == TimerWidth::U32,
            r.peripheral() == configured_timer(timer.instance, TimerWidth::U32),
    {
        HiResTimer::new(timer, TimerWidth::U32)
    }

    /// Takes the TIMER over with the widest counter it has: 32 bits for
    /// TIMER0, 16 bits for TIMER1 and TIMER2.
    pub fn as_max_width_timer(timer: TimerPeripheral) -> (r: HiResTimer)
        ensures
            r.wf(),
            r.width_spec() == max_width_of(timer.instance),
            r.peripheral() == configured_timer(timer.instance, max_width_of(timer.instance)),
    {
        let width = match timer.instance {
            TimerInstance::TIMER0 => TimerWidth::U32,
            _ => TimerWidth::U16,
        };
        HiResTimer::new(timer, width)
    }

    /// Stops the TIMER and gives its registers back.
    pub fn free(self) -> (r: TimerPeripheral)
        ensures
            r == (TimerPeripheral { running: false, ..self.peripheral() }),
    {
        let mut t = self.timer;
        t.running = false;
        t
    }

    /// The registers of the TIMER, as the driver last left them.
    pub fn registers(&self) -> (r: &TimerPeripheral)
        ensures
            *r == self.peripheral(),
    {
        &self.timer
    }

    /// The counter width.
    pub fn width(&self) -> (r: TimerWidth)
        ensures
            r == self.width_spec(),
    {
        self.width
    }

    /// Returns the TIMER's current frequency, read from the PRESCALER register.
    pub fn frequency(&self) -> (r: TimerFrequency)
        requires
            self.wf(),
        ensures
            r.prescaler() == self.peripheral().prescaler,
            r == timer_frequency_of(self.peripheral().prescaler as nat),
    {
        match TimerFrequency::from_prescaler(self.timer.prescaler) {
            Ok(f) => f,
            Err(_) => TimerFrequency::Freq31250Hz,
        }
    }

    /// Stops the TIMER and sets its frequency.
    pub fn set_frequency(&mut self, frequency: TimerFrequency)
        requires
            old(self).wf(),
        ensures
            final(self).wf(),
            final(self).width_spec() == old(self).width_spec(),
            final(self).peripheral() == (TimerPeripheral {
                running: false,
                prescaler: frequency.prescaler() as u32,
                ..old(self).peripheral()
            }),
    {
        let prescaler = frequency.as_prescaler();
        self.stop();
        self.timer.prescaler = prescaler;
    }

    /// Stops the TIMER and writes `prescaler` to the PRESCALER register, or
    /// returns a configuration error, changing nothing, for a value above 9.
    pub fn set_prescaler(&mut self, prescaler: u32) -> (r: Result<(), TimerError>)
        requires
            old(self).wf(),
        ensures
            final(self).wf(),
            final(self).width_spec() == old(self).width_spec(),
            r is Ok <==> prescaler <= TIMER_MAX_PRESCALER,
            r is Ok ==> final(self).peripheral() == (TimerPeripheral {
                running: false,
                prescaler,
                ..old(self).peripheral()
            }),
            r is Err ==> final(self).peripheral() == old(self).peripheral() && r == Err::<
                (),
                TimerError,
            >(
                TimerError::ConfigurationError(
                    OverValueError { value: prescaler, upper_bound: TIMER_MAX_PRESCALER },
                ),
            ),
    {
        match TimerFrequency::from_prescaler(prescaler) {
            Ok(f) => {
                self.set_frequency(f);
                Ok(())
            },
            Err(e) => Err(e),
        }
    }

    /// Resets the counter to zero; a running TIMER goes on running.
    pub fn clear(&mut self)
        ensures
            final(self).width_spec() == old(self).width_spec(),
            final(self).peripheral() == (TimerPeripheral { counter: 0, ..old(self).peripheral() }),
    {
        self.timer.counter = 0;
    }

    /// Starts the TIMER.
    pub fn start(&mut self)
        ensures
            final(self).width_spec() == old(self).width_spec(),
            final(self).peripheral() == (TimerPeripheral {
                running: true,
                ..old(self).peripheral()
            }),
    {
        self.timer.running = true;
    }

    /// Stops the TIMER.
    pub fn stop(&mut self)
        ensures
            final(self).width_spec() == old(self).width_spec(),
            final(self).peripheral() == (TimerPeripheral {
                running: false,
                ..old(self).peripheral()
            }),
    {
        self.timer.running = false;
    }

    /// Stops the TIMER and shuts its power down; the next start takes longer.
    pub fn shut_down(&mut self)
        ensures
            final(self).width_spec() == old(self).width_spec(),
            final(self).peripheral() == (TimerPeripheral {
                running: false,
                ..old(self).peripheral()
            }),
    {
        self.timer.running = false;
    }

    /// Stores `ticks` in CC register `register`, or returns a configuration
    /// error, changing nothing, when `ticks` does not fit the counter width.
    pub fn set_compare_register(&mut self, register: TimerCc, ticks: u32) -> (r: Result<
        (),
        TimerError,
    >)
        ensures
            final(self).width_spec() == old(self).width_spec(),
            r is Ok <==> ticks <= old(self).width_spec().max_ticks(),
            r is Ok ==> final(self).peripheral() == old(self).peripheral().with_channel(
                register,
                CompareChannel { cc: ticks, ..old(self).peripheral().channel(register) },
            ),
            r is Err ==> final(self).peripheral() == old(self).peripheral() && r == Err::<
                (),
                TimerError,
            >(
                TimerError::ConfigurationError(
                    OverValueError {
                        value: ticks,
                        upper_bound: old(self).width_spec().max_ticks() as u32,
                    },
                ),
            ),
    {
        match self.width.try_from_u32(ticks) {
            Ok(v) => {
                let ch = self.timer.get_channel(register);
                self.timer.set_channel(register, CompareChannel { cc: v, ..ch });
                Ok(())
            },
            Err(_) => Err(
                TimerError::ConfigurationError(
                    OverValueError { value: ticks, upper_bound: self.width.max_value() },
                ),
            ),
        }
    }

    /// Stores the current counter value in CC register `register`.
    pub fn capture(&mut self, register: TimerCc)
        ensures
            final(self).width_spec() == old(self).width_spec(),
            final(self).peripheral() == old(self).peripheral().with_channel(
                register,
                CompareChannel {
                    cc: old(self).peripheral().counter,
                    ..old(self).peripheral().channel(register)
                },
            ),
    {
        let ch = self.timer.get_channel(register);
        self.timer.set_channel(register, CompareChannel { cc: self.timer.counter, ..ch });
    }

    /// Returns the value stored in CC register `register`.
    pub fn captured_counter(&mut self, register: TimerCc) -> (r: u32)
        ensures
            *final(self) == *old(self),
            r == old(self).peripheral().channel(register).cc,
    {
        self.timer.get_channel(register).cc
    }

    /// Returns the COMPARE event flag of CC register `register`: set when
    /// the counter reached the register's value.
    pub fn read_compare_event(&self, register: TimerCc) -> (r: bool)
        ensures
            r == self.peripheral().channel(register).event,
    {
        self.timer.get_channel(register).event
    }

    /// Clears the COMPARE event flag of CC register `register`.
    pub fn clear_compare_event(&mut self, register: TimerCc)
        ensures
            final(self).width_spec() == old(self).width_spec(),
            final(self).peripheral() == old(self).peripheral().with_channel(
                register,
                CompareChannel { event: false, ..old(self).peripheral().channel(register) },
            ),
    {
        let ch = self.timer.get_channel(register);
        self.timer.set_channel(register, CompareChannel { event: false, ..ch });
    }

    /// Checks and clears the COMPARE event flag of CC register `register`:
    /// returns whether the counter reached the register's value since the
    /// flag was last cleared.
    pub fn poll_compare_event(&mut self, register: TimerCc) -> (r: bool)
        ensures
            final(self).width_spec() == old(self).width_spec(),
            r == old(self).peripheral().channel(register).event,
            final(self).peripheral() == old(self).peripheral().with_channel(
                register,
                CompareChannel { event: false, ..old(self).peripheral().channel(register) },
            ),
    {
        let fired = self.read_compare_event(register);
        if fired {
            self.clear_compare_event(register);
        }
        fired
    }

    /// Enables the interrupt of CC register `register`; the handler should
    /// clear the event flag.
    pub fn enable_compare_interrupt(&mut self, register: TimerCc)
        ensures
            final(self).width_spec() == old(self).width_spec(),
            final(self).peripheral() == old(self).peripheral().with_channel(
                register,
                CompareChannel { interrupt: true, ..old(self).peripheral().channel(register) },
            ),
    {
        let ch = self.timer.get_channel(register);
        self.timer.set_channel(register, CompareChannel { interrupt: true, ..ch });
    }

    /// Disables the interrupt of CC register `register`.
    pub fn disable_compare_interrupt(&mut self, register: TimerCc)
        ensures
            final(self).width_spec() == old(self).width_spec(),
            final(self).peripheral() == old(self).peripheral().with_channel(
                register,
                CompareChannel { interrupt: false, ..old(self).peripheral().channel(register) },
            ),
    {
        let ch = self.timer.get_channel(register);
        self.timer.set_channel(register, CompareChannel { interrupt: false, ..ch });
    }

    fn write_shortcuts(&mut self, register: TimerCc, clear: bool, stop: bool)
        ensures
            final(self).width_spec() == old(self).width_spec(),
            final(self).peripheral() == old(self).peripheral().with_only_shortcuts(
                register,
                clear,
                stop,
            ),
    {
        self.timer.ch0 = CompareChannel { short_clear: false, short_stop: false, ..self.timer.ch0 };
        self.timer.ch1 = CompareChannel { short_clear: false, short_stop: false, ..self.timer.ch1 };
        self.timer.ch2 = CompareChannel { short_clear: false, short_stop: false, ..self.timer.ch2 };
        self.timer.ch3 = CompareChannel { short_clear: false, short_stop: false, ..self.timer.ch3 };
        let ch = self.timer.get_channel(register);
        self.timer.set_channel(register, CompareChannel { short_clear: clear, short_stop: stop, ..ch });
    }

    /// Enables the shortcut from the COMPARE event of `register` to the CLEAR
    /// task: the counter returns to zero when it reaches the register's value.
    /// The SHORTS register is written whole, so every other shortcut is off.
    pub fn enable_auto_clear(&mut self, register: TimerCc)
        ensures
            final(self).width_spec() == old(self).width_spec(),
            final(self).peripheral() == old(self).peripheral().with_only_shortcuts(
                register,
                true,
                false,
            ),
    {
        self.write_shortcuts(register, true, false);
    }

    /// Disables the shortcut from the COMPARE event of `register` to the CLEAR
    /// task. The SHORTS register is written whole, so every shortcut is off.
    pub fn disable_auto_clear(&mut self, register: TimerCc)
        ensures
            final(self).width_spec() == old(self).width_spec(),
            final(self).peripheral() == old(self).peripheral().with_only_shortcuts(
                register,
                false,
                false,
            ),
    {
        self.write_shortcuts(register, false, false);
    }

    /// Enables the shortcut from the COMPARE event of `register` to the STOP
    /// task: the counter halts when it reaches the register's value. The
    /// SHORTS register is written whole, so every other shortcut is off.
    pub fn enable_auto_stop(&mut self, register: TimerCc)
        ensures
            final(self).width_spec() == old(self).width_spec(),
            final(self).peripheral() == old(self).peripheral().with_only_shortcuts(
                register,
                false,
                true,
            ),
    {
        self.write_shortcuts(register, false, true);
    }

    /// Disables the shortcut from the COMPARE event of `register` to the STOP
    /// task. The SHORTS register is written whole, so every shortcut is off.
    pub fn disable_auto_stop(&mut self, register: TimerCc)
        ensures
            final(self).width_spec() == old(self).width_spec(),
            final(self).peripheral() == old(self).peripheral().with_only_shortcuts(
                register,
                false,
                false,
            ),
    {
        self.write_shortcuts(register, false, false);
    }

    /// Records a match of the hardware counter with CC0: the COMPARE event of
    /// CC0 is set, and CC0's shortcuts clear the counter or stop it.
    pub fn record_cc0_match(&mut self)
        ensures
            final(self).width_spec() == old(self).width_spec(),
            final(self).peripheral() == (TimerPeripheral {
                counter: if old(self).peripheral().ch0.short_clear {
                    0
                } else {
                    old(self).peripheral().ch0.cc
                },
                running: old(self).peripheral().running && !old(self).peripheral().ch0.short_stop,
                ch0: CompareChannel { event: true, ..old(self).peripheral().ch0 },
                ..old(self).peripheral()
            }),
    {
        self.timer.counter = if self.timer.ch0.short_clear {
            0
        } else {
            self.timer.ch0.cc
        };
        self.timer.running = self.timer.running && !self.timer.ch0.short_stop;
        self.timer.ch0 = CompareChannel { event: true, ..self.timer.ch0 };
    }

    /// Lets `n` periods of the TIMER's clock pass.
    pub fn advance(&mut self, n: u32)
        requires
            old(self).wf(),
        ensures
            final(self).wf(),
            final(self).width_spec() == old(self).width_spec(),
            final(self).peripheral() == old(self).peripheral().ticked_n(n as nat),
    {
        proof {
            self.timer.lemma_ticks_keep_configuration(n as nat);
        }
        self.timer.advance(n);
    }
}

/// Setting a frequency and reading it back from the PRESCALER register gives
/// the same frequency, at exactly 16 MHz / 2^prescaler, for every valid
/// prescaler; so repeated set and read cycles cannot drift.
pub proof fn lemma_frequency_round_trip(f: TimerFrequency)
    ensures
        timer_frequency_of(f.prescaler()) == f,
        f.divisor() == pow2(f.prescaler()),
        16_000_000nat / f.divisor() == 16_000_000nat / pow2(f.prescaler()),
{
    lemma2_to64();
}

/// Every PRESCALER value from 0 to 9 is the prescaler of the frequency read
/// back from it.
pub proof fn lemma_prescaler_round_trip(p: nat)
    requires
        p <= TIMER_MAX_PRESCALER,
    ensures
        timer_frequency_of(p).prescaler() == p,
{
}

/// A compare value that `set_compare_register` accepted is read back
/// unchanged by `captured_counter`: nothing is truncated.
pub proof fn lemma_compare_round_trip(p: TimerPeripheral, register: TimerCc, ticks: u32)
    ensures
        p.with_channel(register, CompareChannel { cc: ticks, ..p.channel(register) }).channel(
            register,
        ).cc == ticks,
{
}

} // verus!
