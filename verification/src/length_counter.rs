//! Length counter: the audio processor's note-duration gate. Included as a
//! minimal contract of the channel-gating rule; the waveform generators
//! themselves live outside this library.

use vstd::prelude::*;

verus! {

/// The duration, in frame-counter ticks, that a 5-bit load index selects.
pub open spec fn spec_length_value(index: u8) -> u8 {
    if index == 0x00 {
        10
    } else if index == 0x01 {
        254
    } else if index == 0x02 {
        20
    } else if index == 0x03 {
        2
    } else if index == 0x04 {
        40
    } else if index == 0x05 {
        4
    } else if index == 0x06 {
        80
    } else if index == 0x07 {
        6
    } else if index == 0x08 {
        160
    } else if index == 0x09 {
        8
    } else if index == 0x0A {
        60
    } else if index == 0x0B {
        10
    } else if index == 0x0C {
        14
    } else if index == 0x0D {
        12
    } else if index == 0x0E {
        26
    } else if index == 0x0F {
        14
    } else if index == 0x10 {
        12
    } else if index == 0x11 {
        16
    } else if index == 0x12 {
        24
    } else if index == 0x13 {
        18
    } else if index == 0x14 {
        48
    } else if index == 0x15 {
        20
    } else if index == 0x16 {
        96
    } else if index == 0x17 {
        22
    } else if index == 0x18 {
        192
    } else if index == 0x19 {
        24
    } else if index == 0x1A {
        72
    } else if index == 0x1B {
        26
    } else if index == 0x1C {
        16
    } else if index == 0x1D {
        28
    } else if index == 0x1E {
        32
    } else {
        30
    }
}

/// The duration table, indexed by the 5-bit value a register write carries.
fn length_value(index: u8) -> (r: u8)
    requires
        index <= 0x1F,
    ensures
        r == spec_length_value(index),
{
    match index {
        0x00 => 10,
        0x01 => 254,
        0x02 => 20,
        0x03 => 2,
        0x04 => 40,
        0x05 => 4,
        0x06 => 80,
        0x07 => 6,
        0x08 => 160,
        0x09 => 8,
        0x0A => 60,
        0x0B => 10,
        0x0C => 14,
        0x0D => 12,
        0x0E => 26,
        0x0F => 14,
        0x10 => 12,
        0x11 => 16,
        0x12 => 24,
        0x13 => 18,
        0x14 => 48,
        0x15 => 20,
        0x16 => 96,
        0x17 => 22,
        0x18 => 192,
        0x19 => 24,
        0x1A => 72,
        0x1B => 26,
        0x1C => 16,
        0x1D => 28,
        0x1E => 32,
        _ => 30,
    }
}

/// Counts a note's remaining duration and silences the channel at zero.
pub struct LengthCounter {
    pub counter: u8,
    pub enabled: bool,
    pub halt: bool,
}

impl LengthCounter {
    pub fn empty() -> (r: Self)
        ensures
            r == (LengthCounter { counter: 0, enabled: false, halt: false }),
    {
        Self { counter: 0, enabled: false, halt: false }
    }

    /// Reloads the counter from the duration table, but only while the
    /// channel is enabled.
    pub fn reload_counter(&mut self, index: u8)
        requires
            index <= 0x1F,
        ensures
            *final(self) == (LengthCounter {
                counter: if old(self).enabled {
                    spec_length_value(index)
                } else {
                    old(self).counter
                },
                ..*old(self)
            }),
    {
        // only reload if enabled
        if self.enabled {
            self.counter = length_value(index);
        }
    }

    /// One frame-counter tick: holds at zero, holds while halted, and is
    /// pinned to zero whenever the channel is disabled.
    pub fn decrement(&mut self)
        ensures
            *final(self) == (LengthCounter {
                counter: if !old(self).enabled {
                    0
                } else if old(self).halt || old(self).counter == 0 {
                    old(self).counter
                } else {
                    (old(self).counter - 1) as u8
                },
                ..*old(self)
            }),
    {
        self.counter = if self.enabled {
            // stop at zero instead of wrapping
            if self.halt {
                self.counter
            } else {
                self.counter.saturating_sub(1)
            }
        } else {
            0
        };
    }

    /// Enables or disables the channel; disabling silences it immediately.
    pub fn set_enabled(&mut self, enabled: bool)
        ensures
            *final(self) == (LengthCounter {
                counter: if enabled {
                    old(self).counter
                } else {
                    0
                },
                enabled,
                ..*old(self)
            }),
    {
        self.enabled = enabled;
        // silence immediately
        if !enabled {
            self.counter = 0;
        }
    }

    pub fn set_halt(&mut self, halt: bool)
        ensures
            *final(self) == (LengthCounter { halt, ..*old(self) }),
    {
        self.halt = halt;
    }

    pub fn counter(&self) -> (r: u8)
        ensures
            r == self.counter,
    {
        self.counter
    }
}

/// A waveform channel gated by a length counter. The channel itself is one
/// of the audio processor's generators, outside this library; this wrapper
/// only pairs it with its counter.
pub struct LengthCountedChannel<C> {
    pub length_counter: LengthCounter,
    pub channel: C,
}

impl<C> LengthCountedChannel<C> {
    pub fn new(channel: C) -> (r: Self)
        ensures
            r.length_counter == (LengthCounter { counter: 0, enabled: false, halt: false }),
            r.channel == channel,
    {
        Self { length_counter: LengthCounter::empty(), channel }
    }

    pub fn length_counter(&self) -> (r: &LengthCounter)
        ensures
            *r == self.length_counter,
    {
        &self.length_counter
    }

    pub fn length_counter_mut(&mut self) -> (r: &mut LengthCounter)
        ensures
            *r == old(self).length_counter,
            final(self).length_counter == *final(r),
            final(self).channel == old(self).channel,
    {
        &mut self.length_counter
    }

    pub fn channel(&self) -> (r: &C)
        ensures
            *r == self.channel,
    {
        &self.channel
    }

    pub fn channel_mut(&mut self) -> (r: &mut C)
        ensures
            *r == old(self).channel,
            final(self).channel == *final(r),
            final(self).length_counter == old(self).length_counter,
    {
        &mut self.channel
    }
}

} // verus!
