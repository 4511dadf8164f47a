//! The divider and the programmable timer.

use vstd::prelude::*;
use crate::helper::{Bit, MemoryRegister};
use crate::interrupt::{InterruptFlag, InterruptHandler};

verus! {

/// Clock cycles between two steps of the divider register.
pub const DIVIDER_PERIOD: u16 = 256;

/// The four rates at which the timer counter can run.
#[derive(Clone, Copy, Debug, PartialEq, Eq, Structural)]
pub enum TimerFrequency {
    /// 4096 Hz.
    Mode0,
    /// 262144 Hz.
    Mode1,
    /// 65536 Hz.
    Mode2,
    /// 16384 Hz.
    Mode3,
}

impl TimerFrequency {
    /// Clock cycles between two steps of the timer counter at this rate.
    pub open spec fn spec_period(self) -> u16 {
        match self {
            TimerFrequency::Mode0 => 1024,
            TimerFrequency::Mode1 => 16,
            TimerFrequency::Mode2 => 64,
            TimerFrequency::Mode3 => 256,
        }
    }

    #[verifier::when_used_as_spec(spec_period)]
    pub fn period(self) -> (p: u16)
        ensures
            p == self.spec_period(),
    {
        match self {
            TimerFrequency::Mode0 => 1024,
            TimerFrequency::Mode1 => 16,
            TimerFrequency::Mode2 => 64,
            TimerFrequency::Mode3 => 256,
        }
    }
}

/// The counter value after `steps` increments from `counter`, where a step
/// from 255 reloads `modulo`; and whether any step did reload.
pub open spec fn counter_after(counter: u8, modulo: u8, steps: nat) -> (u8, bool)
    decreases steps,
{
    if steps == 0 {
        (counter, false)
    } else if counter == 255 {
        (counter_after(modulo, modulo, (steps - 1) as nat).0, true)
    } else {
        counter_after((counter + 1) as u8, modulo, (steps - 1) as nat)
    }
}

/// The counter value after `steps` increments without the steps in
/// between: while the counter does not pass 255 the steps are added; once it
/// has, it has started from `modulo` and runs through the values from
/// `modulo` to 255 over and over.
pub open spec fn counter_jump(counter: u8, modulo: u8, steps: nat) -> (u8, bool) {
    if steps <= 255 - counter {
        ((counter + steps) as u8, false)
    } else {
        ((modulo + (steps - (256 - counter)) % (256 - modulo)) as u8, true)
    }
}

/// Counting step by step and jumping give the same.
pub proof fn lemma_counter_after(counter: u8, modulo: u8, steps: nat)
    ensures
        counter_after(counter, modulo, steps) == counter_jump(counter, modulo, steps),
    decreases steps,
{
    let period = 256 - modulo;
    if steps == 0 {
    } else if counter == 255 {
        lemma_counter_after(modulo, modulo, (steps - 1) as nat);
        if steps - 1 <= 255 - modulo {
            vstd::arithmetic::div_mod::lemma_small_mod((steps - 1) as nat, period as nat);
        } else {
            vstd::arithmetic::div_mod::lemma_mod_sub_multiples_vanish(steps - 1, period);
        }
    } else {
        lemma_counter_after((counter + 1) as u8, modulo, (steps - 1) as nat);
    }
}

/// The timer block: `DIV`, `TIMA`, `TMA`, `TAC` and the cycles counted
/// towards their next step.
#[derive(Clone, Copy, Debug, PartialEq, Eq, Structural)]
pub struct Timer {
    pub div: MemoryRegister,
    pub tima: MemoryRegister,
    pub tma: MemoryRegister,
    pub tac: MemoryRegister,
    /// Cycles counted since the divider last stepped.
    pub divider_counter: u16,
    /// Cycles counted since the timer counter last stepped.
    pub timer_counter: u16,
    /// The rate the timer counter is running at.
    pub frequency: TimerFrequency,
}

impl Timer {
    pub open spec fn spec_new() -> Timer {
        Timer {
            div: MemoryRegister { value: 0 },
            tima: MemoryRegister { value: 0 },
            tma: MemoryRegister { value: 0 },
            tac: MemoryRegister { value: 0 },
            divider_counter: 0,
            timer_counter: 0,
            frequency: TimerFrequency::Mode0,
        }
    }

    pub fn new() -> (timer: Timer)
        ensures
            timer == Timer::spec_new(),
    {
        Timer {
            div: MemoryRegister::new(0x00),
            tima: MemoryRegister::new(0x00),
            tma: MemoryRegister::new(0x00),
            tac: MemoryRegister::new(0x00),
            divider_counter: 0,
            timer_counter: 0,
            frequency: TimerFrequency::Mode0,
        }
    }

    /// The rate selected by the two low bits of `TAC`.
    pub open spec fn spec_get_frequency(&self) -> TimerFrequency {
        let mode = self.tac.value % 4;
        if mode == 0 {
            TimerFrequency::Mode0
        } else if mode == 1 {
            TimerFrequency::Mode1
        } else if mode == 2 {
            TimerFrequency::Mode2
        } else {
            TimerFrequency::Mode3
        }
    }

    #[verifier::when_used_as_spec(spec_get_frequency)]
    pub fn get_frequency(&self) -> (frequency: TimerFrequency)
        ensures
            frequency == self.spec_get_frequency(),
    {
        let mode: u8 = self.tac.get() % 4;
        if mode == 0 {
            TimerFrequency::Mode0
        } else if mode == 1 {
            TimerFrequency::Mode1
        } else if mode == 2 {
            TimerFrequency::Mode2
        } else {
            TimerFrequency::Mode3
        }
    }

    /// Bit 2 of `TAC` lets the timer counter run.
    pub open spec fn spec_timer_enabled(&self) -> bool {
        self.tac.is_set(Bit::Bit2)
    }

    #[verifier::when_used_as_spec(spec_timer_enabled)]
    pub fn timer_enabled(&self) -> (enabled: bool)
        ensures
            enabled == self.spec_timer_enabled(),
    {
        self.tac.is_set(Bit::Bit2)
    }

    /// The timer with the divider advanced by `cycles`: `DIV` steps once for
    /// every 256 cycles counted.
    pub open spec fn with_divider_advanced(self, cycles: nat) -> Timer {
        let total = self.divider_counter as nat + cycles;
        Timer {
            div: MemoryRegister { value: ((self.div.value as nat + total / 256) % 256) as u8 },
            divider_counter: (total % 256) as u16,
            ..self
        }
    }

    fn update_divider(&mut self, cycles: usize)
        ensures
            *final(self) == old(self).with_divider_advanced(cycles as nat),
    {
        let total: u128 = self.divider_counter as u128 + cycles as u128;
        let steps: u128 = total / 256;
        self.div.set(((self.div.get() as u128 + steps) % 256) as u8);
        self.divider_counter = (total % 256) as u16;
    }

    /// The timer running at `frequency`, with the count towards the next
    /// step started afresh.
    pub open spec fn with_frequency(self, frequency: TimerFrequency) -> Timer {
        Timer { frequency, timer_counter: 0, ..self }
    }

    fn set_frequency(&mut self, frequency: TimerFrequency)
        ensures
            *final(self) == old(self).with_frequency(frequency),
    {
        self.frequency = frequency;
        self.timer_counter = 0;
    }

    /// The timer after a change of the selected rate has been taken up.
    pub open spec fn resynchronised(self) -> Timer {
        if self.frequency != self.spec_get_frequency() {
            self.with_frequency(self.spec_get_frequency())
        } else {
            self
        }
    }

    /// How often the timer counter steps when `cycles` more cycles are counted.
    pub open spec fn counter_steps(self, cycles: nat) -> nat {
        (self.timer_counter as nat + cycles) / (self.frequency.period() as nat)
    }

    /// The timer with the timer counter advanced by `cycles`, at the rate it
    /// is running at.
    pub open spec fn with_counter_advanced(self, cycles: nat) -> Timer {
        Timer {
            tima: MemoryRegister {
                value: counter_after(self.tima.value, self.tma.value, self.counter_steps(cycles)).0,
            },
            timer_counter: ((self.timer_counter as nat + cycles) % (
            self.frequency.period() as nat)) as u16,
            ..self
        }
    }

    /// The timer after `cycles` clock cycles.
    pub open spec fn after_cycles(self, cycles: nat) -> Timer {
        let timer = self.with_divider_advanced(cycles).resynchronised();
        if timer.spec_timer_enabled() {
            timer.with_counter_advanced(cycles)
        } else {
            timer
        }
    }

    /// Whether the timer counter passes 255 within `cycles` clock cycles.
    pub open spec fn overflows(self, cycles: nat) -> bool {
        let timer = self.with_divider_advanced(cycles).resynchronised();
        timer.spec_timer_enabled() && counter_after(
            timer.tima.value,
            timer.tma.value,
            timer.counter_steps(cycles),
        ).1
    }

    /// Counts `cycles` clock cycles. A timer interrupt is requested when the
    /// timer counter passes 255; the counter then starts again from `TMA`.
    pub fn cycles(&mut self, cycles: usize, interrupt: &mut InterruptHandler)
        ensures
            *final(self) == old(self).after_cycles(cycles as nat),
            *final(interrupt) == if old(self).overflows(cycles as nat) {
                old(interrupt).with_request(InterruptFlag::Timer)
            } else {
                *old(interrupt)
            },
    {
        self.update_divider(cycles);
        let new_freq = self.get_frequency();
        if self.frequency != new_freq {
            self.set_frequency(new_freq);
        }
        if self.timer_enabled() {
            let period: u128 = self.frequency.period() as u128;
            let total: u128 = self.timer_counter as u128 + cycles as u128;
            let steps: u128 = total / period;
            self.timer_counter = (total % period) as u16;
            let modulo: u8 = self.tma.get();
            let start: u8 = self.tima.get();
            let room: u128 = (255 - start) as u128;
            proof {
                lemma_counter_after(start, modulo, steps as nat);
            }
            let counter: u8 = if steps <= room {
                (start as u128 + steps) as u8
            } else {
                let reload_period: u128 = 256 - modulo as u128;
                (modulo as u128 + (steps - room - 1) % reload_period) as u8
            };
            let overflowed = steps > room;
            self.tima.set(counter);
            if overflowed {
                interrupt.request_interrupt(InterruptFlag::Timer);
            }
        }
    }

    pub fn read_div(&self) -> (data: u8)
        ensures
            data == self.div.value,
    {
        self.div.get()
    }

    /// Any write sets `DIV` to zero.
    pub fn write_div(&mut self, data: u8)
        ensures
            *final(self) == (Timer { div: MemoryRegister { value: 0 }, ..*old(self) }),
    {
        self.div.clear();
    }

    pub fn read_counter(&self) -> (data: u8)
        ensures
            data == self.tima.value,
    {
        self.tima.get()
    }

    pub fn write_counter(&mut self, data: u8)
        ensures
            *final(self) == (Timer { tima: MemoryRegister { value: data }, ..*old(self) }),
    {
        self.tima.set(data);
    }

    pub fn read_modulo(&self) -> (data: u8)
        ensures
            data == self.tma.value,
    {
        self.tma.get()
    }

    pub fn write_modulo(&mut self, data: u8)
        ensures
            *final(self) == (Timer { tma: MemoryRegister { value: data }, ..*old(self) }),
    {
        self.tma.set(data);
    }

    /// `TAC` as the processor sees it: the five unused high bits read as 1.
    pub open spec fn spec_read_control(&self) -> u8 {
        self.tac.value | 0xF8
    }

    #[verifier::when_used_as_spec(spec_read_control)]
    pub fn read_control(&self) -> (data: u8)
        ensures
            data == self.spec_read_control(),
    {
        self.tac.get() | 0xF8
    }

    pub fn write_control(&mut self, data: u8)
        ensures
            *final(self) == (Timer { tac: MemoryRegister { value: data }, ..*old(self) }),
    {
        self.tac.set(data);
    }
}

} // verus!
