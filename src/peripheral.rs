//! The TIMER and RTC peripherals as plain-value register blocks.
//!
//! Each block holds what its registers hold, and each method is one task,
//! register write or clock tick, with the effect the hardware documents for
//! it. A block is handed out once per physical instance and moved, never
//! copied, so at most one driver owns a peripheral at a time.

use vstd::prelude::*;

verus! {

/// One of the four capture/compare registers of a TIMER.
#[derive(Debug, Clone, Copy, PartialEq, Eq, Structural)]
pub enum TimerCc {
    CC0,
    CC1,
    CC2,
    CC3,
}

impl TimerCc {
    /// The register's index, 0 to 3.
    pub open spec fn index(self) -> nat {
        match self {
            TimerCc::CC0 => 0,
            TimerCc::CC1 => 1,
            TimerCc::CC2 => 2,
            TimerCc::CC3 => 3,
        }
    }

    /// Returns the CC register with the specified index.
    pub fn from_index(cc: usize) -> (r: Result<TimerCc, ()>)
        ensures
            r is Ok <==> cc < 4,
            r matches Ok(c) ==> c.index() == cc,
    {
        match cc {
            0 => Ok(TimerCc::CC0),
            1 => Ok(TimerCc::CC1),
            2 => Ok(TimerCc::CC2),
            3 => Ok(TimerCc::CC3),
            _ => Err(()),
        }
    }
}

/// Which of the three TIMER peripherals a block is.
#[derive(Debug, Clone, Copy, PartialEq, Eq, Structural)]
pub enum TimerInstance {
    TIMER0,
    TIMER1,
    TIMER2,
}

/// The state of one TIMER compare channel: its CC register, its COMPARE
/// event, its interrupt enable bit, and its two shortcut bits.
#[derive(Debug, Clone, Copy, PartialEq, Eq, Structural)]
pub struct CompareChannel {
    pub cc: u32,
    pub event: bool,
    pub interrupt: bool,
    pub short_clear: bool,
    pub short_stop: bool,
}

impl CompareChannel {
    /// A channel with every register at its reset value.
    pub open spec fn reset_spec() -> CompareChannel {
        CompareChannel { cc: 0, event: false, interrupt: false, short_clear: false, short_stop: false }
    }

    /// A channel with every register at its reset value.
    pub fn reset() -> (r: CompareChannel)
        ensures
            r == CompareChannel::reset_spec(),
    {
        CompareChannel { cc: 0, event: false, interrupt: false, short_clear: false, short_stop: false }
    }

    /// Whether the channel matches when the counter reaches `count`.
    pub open spec fn matches_count(self, count: u32) -> bool {
        self.cc == count
    }

    /// The channel after the counter reached `count`: a match sets the event.
    pub open spec fn after_count(self, count: u32) -> CompareChannel {
        CompareChannel { event: self.event || self.matches_count(count), ..self }
    }

    /// Whether reaching `count` triggers the CLEAR task through the shortcut.
    pub open spec fn clears_at(self, count: u32) -> bool {
        self.matches_count(count) && self.short_clear
    }

    /// Whether reaching `count` triggers the STOP task through the shortcut.
    pub open spec fn stops_at(self, count: u32) -> bool {
        self.matches_count(count) && self.short_stop
    }

    /// The channel with both of its shortcuts switched off.
    pub open spec fn without_shortcuts(self) -> CompareChannel {
        CompareChannel { short_clear: false, short_stop: false, ..self }
    }

    fn after_count_exec(self, count: u32) -> (r: CompareChannel)
        ensures
            r == self.after_count(count),
    {
        CompareChannel { event: self.event || self.cc == count, ..self }
    }
}

/// The registers of one TIMER peripheral, in timer mode.
pub struct TimerPeripheral {
    pub instance: TimerInstance,
    /// Whether the counter is counting (set by START, cleared by STOP).
    pub running: bool,
    /// The internal counter.
    pub counter: u32,
    /// The PRESCALER register: the clock is 16 MHz / 2^prescaler.
    pub prescaler: u32,
    /// The BITMODE register.
    pub bitmode: crate::width::BitMode,
    pub ch0: CompareChannel,
    pub ch1: CompareChannel,
    pub ch2: CompareChannel,
    pub ch3: CompareChannel,
}

/// The reset value of a TIMER's PRESCALER register (a 1 MHz clock).
pub const TIMER_PRESCALER_RESET: u32 = 4;

impl TimerPeripheral {
    /// The block of a TIMER as it comes out of reset.
    pub open spec fn reset_spec(instance: TimerInstance) -> TimerPeripheral {
        TimerPeripheral {
            instance,
            running: false,
            counter: 0,
            prescaler: 4,
            bitmode: crate::width::BitMode::_16bit,
            ch0: CompareChannel::reset_spec(),
            ch1: CompareChannel::reset_spec(),
            ch2: CompareChannel::reset_spec(),
            ch3: CompareChannel::reset_spec(),
        }
    }

    /// Hands out the TIMER `instance`, in its reset state.
    pub fn new(instance: TimerInstance) -> (r: TimerPeripheral)
        ensures
            r == TimerPeripheral::reset_spec(instance),
    {
        TimerPeripheral {
            instance,
            running: false,
            counter: 0,
            prescaler: TIMER_PRESCALER_RESET,
            bitmode: crate::width::BitMode::_16bit,
            ch0: CompareChannel::reset(),
            ch1: CompareChannel::reset(),
            ch2: CompareChannel::reset(),
            ch3: CompareChannel::reset(),
        }
    }

    /// The compare channel `r`.
    pub open spec fn channel(self, r: TimerCc) -> CompareChannel {
        match r {
            TimerCc::CC0 => self.ch0,
            TimerCc::CC1 => self.ch1,
            TimerCc::CC2 => self.ch2,
            TimerCc::CC3 => self.ch3,
        }
    }

    /// The block with compare channel `r` replaced by `ch`.
    pub open spec fn with_channel(self, r: TimerCc, ch: CompareChannel) -> TimerPeripheral {
        match r {
            TimerCc::CC0 => TimerPeripheral { ch0: ch, ..self },
            TimerCc::CC1 => TimerPeripheral { ch1: ch, ..self },
            TimerCc::CC2 => TimerPeripheral { ch2: ch, ..self },
            TimerCc::CC3 => TimerPeripheral { ch3: ch, ..self },
        }
    }

    /// The block after a whole write of the SHORTS register that enables, of
    /// all the shortcuts, at most the CLEAR (`clear`) and STOP (`stop`)
    /// shortcuts of channel `r`.
    pub open spec fn with_only_shortcuts(self, r: TimerCc, clear: bool, stop: bool) -> TimerPeripheral {
        let off = TimerPeripheral {
            ch0: self.ch0.without_shortcuts(),
            ch1: self.ch1.without_shortcuts(),
            ch2: self.ch2.without_shortcuts(),
            ch3: self.ch3.without_shortcuts(),
            ..self
        };
        off.with_channel(r, CompareChannel { short_clear: clear, short_stop: stop, ..off.channel(r) })
    }

    /// Reads compare channel `r`.
    pub fn get_channel(&self, r: TimerCc) -> (ch: CompareChannel)
        ensures
            ch == self.channel(r),
    {
        match r {
            TimerCc::CC0 => self.ch0,
            TimerCc::CC1 => self.ch1,
            TimerCc::CC2 => self.ch2,
            TimerCc::CC3 => self.ch3,
        }
    }

    /// Replaces compare channel `r` by `ch`.
    pub fn set_channel(&mut self, r: TimerCc, ch: CompareChannel)
        ensures
            *final(self) == old(self).with_channel(r, ch),
    {
        match r {
            TimerCc::CC0 => self.ch0 = ch,
            TimerCc::CC1 => self.ch1 = ch,
            TimerCc::CC2 => self.ch2 = ch,
            TimerCc::CC3 => self.ch3 = ch,
        }
    }

    /// The value the counter takes on its next increment.
    pub open spec fn next_count(self) -> u32 {
        ((self.counter + 1) % (self.bitmode.modulus() as int)) as u32
    }

    /// Whether some shortcut fires the CLEAR task when the counter reaches `c`.
    pub open spec fn clears_at(self, c: u32) -> bool {
        self.ch0.clears_at(c) || self.ch1.clears_at(c) || self.ch2.clears_at(c)
            || self.ch3.clears_at(c)
    }

    /// Whether some shortcut fires the STOP task when the counter reaches `c`.
    pub open spec fn stops_at(self, c: u32) -> bool {
        self.ch0.stops_at(c) || self.ch1.stops_at(c) || self.ch2.stops_at(c) || self.ch3.stops_at(
            c,
        )
    }

    /// The block after one period of the timer's clock. A running counter
    /// increments, wrapping at its bit-width; each channel whose CC register
    /// equals the new count generates its COMPARE event; and the shortcuts of
    /// those channels clear the counter to zero or stop it.
    pub open spec fn ticked(self) -> TimerPeripheral {
        if !self.running {
            self
        } else {
            let c = self.next_count();
            TimerPeripheral {
                counter: if self.clears_at(c) {
                    0
                } else {
                    c
                },
                running: !self.stops_at(c),
                ch0: self.ch0.after_count(c),
                ch1: self.ch1.after_count(c),
                ch2: self.ch2.after_count(c),
                ch3: self.ch3.after_count(c),
                ..self
            }
        }
    }

    /// The block after `n` periods of the timer's clock.
    pub open spec fn ticked_n(self, n: nat) -> TimerPeripheral
        decreases n,
    {
        if n == 0 {
            self
        } else {
            self.ticked().ticked_n((n - 1) as nat)
        }
    }

    /// The registers that software writes: all but the counter, the
    /// running state and the COMPARE events.
    pub open spec fn same_configuration(self, other: TimerPeripheral) -> bool {
        &&& self.instance == other.instance
        &&& self.prescaler == other.prescaler
        &&& self.bitmode == other.bitmode
        &&& self.ch0 == CompareChannel { event: self.ch0.event, ..other.ch0 }
        &&& self.ch1 == CompareChannel { event: self.ch1.event, ..other.ch1 }
        &&& self.ch2 == CompareChannel { event: self.ch2.event, ..other.ch2 }
        &&& self.ch3 == CompareChannel { event: self.ch3.event, ..other.ch3 }
    }

    /// Clock ticks change no register that software writes.
    pub proof fn lemma_ticks_keep_configuration(self, n: nat)
        ensures
            self.ticked_n(n).same_configuration(self),
        decreases n,
    {
        if n > 0 {
            self.ticked().lemma_ticks_keep_configuration((n - 1) as nat);
        }
    }

    /// `a + b` periods of the clock are `a` periods followed by `b` periods.
    pub proof fn lemma_ticked_n_add(self, a: nat, b: nat)
        ensures
            self.ticked_n(a + b) == self.ticked_n(a).ticked_n(b),
        decreases a,
    {
        if a > 0 {
            self.ticked().lemma_ticked_n_add((a - 1) as nat, b);
            assert((a + b - 1) as nat == ((a - 1) as nat + b) as nat);
        }
    }

    /// Lets one period of the timer's clock pass.
    pub fn tick(&mut self)
        ensures
            *final(self) == old(self).ticked(),
    {
        if self.running {
            let m: u64 = self.bitmode.max_value() as u64 + 1;
            let c64: u64 = (self.counter as u64 + 1) % m;
            proof {
                vstd::arithmetic::div_mod::lemma_mod_bound(self.counter as int + 1, m as int);
            }
            let c: u32 = c64 as u32;
            let clear = (self.ch0.cc == c && self.ch0.short_clear) || (self.ch1.cc == c
                && self.ch1.short_clear) || (self.ch2.cc == c && self.ch2.short_clear) || (
            self.ch3.cc == c && self.ch3.short_clear);
            let stop = (self.ch0.cc == c && self.ch0.short_stop) || (self.ch1.cc == c
                && self.ch1.short_stop) || (self.ch2.cc == c && self.ch2.short_stop) || (
            self.ch3.cc == c && self.ch3.short_stop);
            self.ch0 = self.ch0.after_count_exec(c);
            self.ch1 = self.ch1.after_count_exec(c);
            self.ch2 = self.ch2.after_count_exec(c);
            self.ch3 = self.ch3.after_count_exec(c);
            self.counter = if clear {
                0
            } else {
                c
            };
            self.running = !stop;
        }
    }

    /// Lets `n` periods of the timer's clock pass.
    pub fn advance(&mut self, n: u32)
        ensures
            *final(self) == old(self).ticked_n(n as nat),
    {
        let mut i: u32 = 0;
        while i < n
            invariant
                i <= n,
                old(self).ticked_n(n as nat) == self.ticked_n((n - i) as nat),
            decreases n - i,
        {
            self.tick();
            i = i + 1;
        }
    }
}

/// One of the four compare registers of an RTC.
#[derive(Debug, Clone, Copy, PartialEq, Eq, Structural)]
pub enum RtcCc {
    CC0,
    CC1,
    CC2,
    CC3,
}

impl RtcCc {
    /// The register's index, 0 to 3.
    pub open spec fn index(self) -> nat {
        match self {
            RtcCc::CC0 => 0,
            RtcCc::CC1 => 1,
            RtcCc::CC2 => 2,
            RtcCc::CC3 => 3,
        }
    }

    /// Returns the CC register with the specified index.
    pub fn from_index(cc: usize) -> (r: Result<RtcCc, ()>)
        ensures
            r is Ok <==> cc < 4,
            r matches Ok(c) ==> c.index() == cc,
    {
        match cc {
            0 => Ok(RtcCc::CC0),
            1 => Ok(RtcCc::CC1),
            2 => Ok(RtcCc::CC2),
            3 => Ok(RtcCc::CC3),
            _ => Err(()),
        }
    }
}

/// Which of the two RTC peripherals a block is.
#[derive(Debug, Clone, Copy, PartialEq, Eq, Structural)]
pub enum RtcInstance {
    RTC0,
    RTC1,
}

impl RtcInstance {
    /// Whether this RTC has compare register `r`: RTC0 lacks CC3.
    pub open spec fn has_register_spec(self, r: RtcCc) -> bool {
        !(self == RtcInstance::RTC0 && r == RtcCc::CC3)
    }

    /// Returns true if the specified CC register is present on this RTC.
    pub fn has_register(self, r: RtcCc) -> (b: bool)
        ensures
            b == self.has_register_spec(r),
    {
        match (self, r) {
            (RtcInstance::RTC0, RtcCc::CC3) => false,
            _ => true,
        }
    }
}

/// The state of one RTC compare channel: its CC register, its COMPARE event,
/// and its event and interrupt enable bits.
#[derive(Debug, Clone, Copy, PartialEq, Eq, Structural)]
pub struct RtcChannel {
    pub cc: u32,
    pub event: bool,
    pub event_enabled: bool,
    pub interrupt: bool,
}

impl RtcChannel {
    /// A channel with every register at its reset value.
    pub open spec fn reset_spec() -> RtcChannel {
        RtcChannel { cc: 0, event: false, event_enabled: false, interrupt: false }
    }

    /// A channel with every register at its reset value.
    pub fn reset() -> (r: RtcChannel)
        ensures
            r == RtcChannel::reset_spec(),
    {
        RtcChannel { cc: 0, event: false, event_enabled: false, interrupt: false }
    }

    /// The channel after the counter reached `count`: a match sets the event,
    /// if the event is enabled.
    pub open spec fn after_count(self, count: u32) -> RtcChannel {
        RtcChannel { event: self.event || (self.event_enabled && self.cc == count), ..self }
    }

    fn after_count_exec(self, count: u32) -> (r: RtcChannel)
        ensures
            r == self.after_count(count),
    {
        RtcChannel { event: self.event || (self.event_enabled && self.cc == count), ..self }
    }
}

/// The number of distinct values of an RTC counter (it is 24 bits wide).
pub const RTC_COUNTER_MODULUS: u32 = 0x100_0000;

/// The registers of one RTC peripheral.
pub struct RtcPeripheral {
    pub instance: RtcInstance,
    /// Whether the counter is counting (set by START, cleared by STOP).
    pub running: bool,
    /// The 24-bit counter.
    pub counter: u32,
    /// The PRESCALER register: the clock is 32768 Hz / (prescaler + 1).
    pub prescaler: u32,
    pub ch0: RtcChannel,
    pub ch1: RtcChannel,
    pub ch2: RtcChannel,
    pub ch3: RtcChannel,
    pub tick_event: bool,
    pub tick_event_enabled: bool,
    pub tick_interrupt: bool,
    pub overflow_event: bool,
    pub overflow_event_enabled: bool,
    pub overflow_interrupt: bool,
}

impl RtcPeripheral {
    /// The block of an RTC as it comes out of reset.
    pub open spec fn reset_spec(instance: RtcInstance) -> RtcPeripheral {
        RtcPeripheral {
            instance,
            running: false,
            counter: 0,
            prescaler: 0,
            ch0: RtcChannel::reset_spec(),
            ch1: RtcChannel::reset_spec(),
            ch2: RtcChannel::reset_spec(),
            ch3: RtcChannel::reset_spec(),
            tick_event: false,
            tick_event_enabled: false,
            tick_interrupt: false,
            overflow_event: false,
            overflow_event_enabled: false,
            overflow_interrupt: false,
        }
    }

    /// Hands out the RTC `instance`, in its reset state.
    pub fn new(instance: RtcInstance) -> (r: RtcPeripheral)
        ensures
            r == RtcPeripheral::reset_spec(instance),
    {
        RtcPeripheral {
            instance,
            running: false,
            counter: 0,
            prescaler: 0,
            ch0: RtcChannel::reset(),
            ch1: RtcChannel::reset(),
            ch2: RtcChannel::reset(),
            ch3: RtcChannel::reset(),
            tick_event: false,
            tick_event_enabled: false,
            tick_interrupt: false,
            overflow_event: false,
            overflow_event_enabled: false,
            overflow_interrupt: false,
        }
    }

    /// The compare channel `r`.
    pub open spec fn channel(self, r: RtcCc) -> RtcChannel {
        match r {
            RtcCc::CC0 => self.ch0,
            RtcCc::CC1 => self.ch1,
            RtcCc::CC2 => self.ch2,
            RtcCc::CC3 => self.ch3,
        }
    }

    /// The block with compare channel `r` replaced by `ch`.
    pub open spec fn with_channel(self, r: RtcCc, ch: RtcChannel) -> RtcPeripheral {
        match r {
            RtcCc::CC0 => RtcPeripheral { ch0: ch, ..self },
            RtcCc::CC1 => RtcPeripheral { ch1: ch, ..self },
            RtcCc::CC2 => RtcPeripheral { ch2: ch, ..self },
            RtcCc::CC3 => RtcPeripheral { ch3: ch, ..self },
        }
    }

    /// Reads compare channel `r`.
    pub fn get_channel(&self, r: RtcCc) -> (ch: RtcChannel)
        ensures
            ch == self.channel(r),
    {
        match r {
            RtcCc::CC0 => self.ch0,
            RtcCc::CC1 => self.ch1,
            RtcCc::CC2 => self.ch2,
            RtcCc::CC3 => self.ch3,
        }
    }

    /// Replaces compare channel `r` by `ch`.
    pub fn set_channel(&mut self, r: RtcCc, ch: RtcChannel)
        ensures
            *final(self) == old(self).with_channel(r, ch),
    {
        match r {
            RtcCc::CC0 => self.ch0 = ch,
            RtcCc::CC1 => self.ch1 = ch,
            RtcCc::CC2 => self.ch2 = ch,
            RtcCc::CC3 => self.ch3 = ch,
        }
    }

    /// The value the counter takes on its next increment.
    pub open spec fn next_count(self) -> u32 {
        ((self.counter + 1) % 0x100_0000int) as u32
    }

    /// The block after one period of the RTC's clock. A running counter
    /// increments, wrapping at 24 bits; the TICK event is generated on every
    /// increment and the OVRFLW event on the wrap to zero, each if enabled;
    /// and each present channel whose CC register equals the new count
    /// generates its COMPARE event, if enabled.
    pub open spec fn ticked(self) -> RtcPeripheral {
        if !self.running {
            self
        } else {
            let c = self.next_count();
            RtcPeripheral {
                counter: c,
                tick_event: self.tick_event || self.tick_event_enabled,
                overflow_event: self.overflow_event || (self.overflow_event_enabled && c == 0),
                ch0: self.ch0.after_count(c),
                ch1: self.ch1.after_count(c),
                ch2: self.ch2.after_count(c),
                ch3: if self.instance.has_register_spec(RtcCc::CC3) {
                    self.ch3.after_count(c)
                } else {
                    self.ch3
                },
                ..self
            }
        }
    }

    /// The block after `n` periods of the RTC's clock.
    pub open spec fn ticked_n(self, n: nat) -> RtcPeripheral
        decreases n,
    {
        if n == 0 {
            self
        } else {
            self.ticked().ticked_n((n - 1) as nat)
        }
    }

    /// Clock ticks change neither the instance nor the PRESCALER register.
    pub proof fn lemma_ticks_keep_prescaler(self, n: nat)
        ensures
            self.ticked_n(n).prescaler == self.prescaler,
            self.ticked_n(n).instance == self.instance,
        decreases n,
    {
        if n > 0 {
            self.ticked().lemma_ticks_keep_prescaler((n - 1) as nat);
        }
    }

    /// `a + b` periods of the clock are `a` periods followed by `b` periods.
    pub proof fn lemma_ticked_n_add(self, a: nat, b: nat)
        ensures
            self.ticked_n(a + b) == self.ticked_n(a).ticked_n(b),
        decreases a,
    {
        if a > 0 {
            self.ticked().lemma_ticked_n_add((a - 1) as nat, b);
            assert((a + b - 1) as nat == ((a - 1) as nat + b) as nat);
        }
    }

    /// No clock tick stops an RTC or changes its compare settings.
    pub proof fn lemma_ticks_keep_running(self, n: nat)
        ensures
            self.ticked_n(n).running == self.running,
            self.ticked_n(n).ch0.cc == self.ch0.cc,
            self.ticked_n(n).ch0.event_enabled == self.ch0.event_enabled,
        decreases n,
    {
        if n > 0 {
            self.ticked().lemma_ticks_keep_running((n - 1) as nat);
        }
    }

    /// Lets one period of the RTC's clock pass.
    pub fn tick(&mut self)
        ensures
            *final(self) == old(self).ticked(),
    {
        if self.running {
            let c: u32 = ((self.counter as u64 + 1) % (RTC_COUNTER_MODULUS as u64)) as u32;
            self.counter = c;
            self.tick_event = self.tick_event || self.tick_event_enabled;
            self.overflow_event = self.overflow_event || (self.overflow_event_enabled && c == 0);
            self.ch0 = self.ch0.after_count_exec(c);
            self.ch1 = self.ch1.after_count_exec(c);
            self.ch2 = self.ch2.after_count_exec(c);
            if self.instance.has_register(RtcCc::CC3) {
                self.ch3 = self.ch3.after_count_exec(c);
            }
        }
    }

    /// Lets `n` periods of the RTC's clock pass.
    pub fn advance(&mut self, n: u32)
        ensures
            *final(self) == old(self).ticked_n(n as nat),
    {
        let mut i: u32 = 0;
        while i < n
            invariant
                i <= n,
                old(self).ticked_n(n as nat) == self.ticked_n((n - i) as nat),
            decreases n - i,
        {
            self.tick();
            i = i + 1;
        }
    }
}

} // verus!
