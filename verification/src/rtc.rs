//! The real-time clock of an MBC3 cartridge: five latched registers
//! (seconds, minutes, hours, and a split day counter with halt and
//! day-overflow bits) reconciled against a wall-clock baseline on each latch.
//!
//! The registers visible to the program only move when the clock is latched.
//! Between latches the clock keeps a wall-clock timestamp of the last
//! reconciliation, plus an accumulator of seconds that elapsed while the
//! clock was running but unlatched, which survives halt/resume cycles.

use vstd::prelude::*;

verus! {

/// Relies on std::time::SystemTime::now for the wall clock, converted to
/// whole seconds since the Unix epoch by duration_since and as_secs; a clock
/// set before the epoch reads 0.
#[verifier::external_body]
fn wall_clock_seconds() -> u64 {
    match std::time::SystemTime::now().duration_since(std::time::UNIX_EPOCH) {
        Ok(d) => d.as_secs(),
        Err(_) => 0,
    }
}

/// The set of clock registers present in an MBC3/MBC30 cartridge.
///
/// Days are split over 2 registers: `days_lower` holds the low 8 bits of the
/// day count, and `days_upper` holds the day counter's 9th bit in bit 0, a
/// halting bit in bit 6, and a sticky day-overflow (carry) bit in bit 7.
pub struct RealTimeClock {
    /// Wall-clock second at which the registers were last reconciled.
    pub last_modified: u64,
    /// Seconds that elapsed running-but-unlatched before the last halt.
    pub seconds_since_latch: u64,
    pub seconds: u8,
    pub minutes: u8,
    pub hours: u8,
    pub days_lower: u8,
    pub days_upper: u8,
    pub halted: bool,
}

impl RealTimeClock {
    /// Register widths: 6-bit seconds and minutes, 5-bit hours, and only the
    /// carry, halt and day bits of the upper day register; the halt flag
    /// mirrors bit 6.
    pub open spec fn wf(&self) -> bool {
        &&& self.seconds < 64
        &&& self.minutes < 64
        &&& self.hours < 32
        &&& self.days_upper & 0x3E == 0
        &&& self.halted == (self.days_upper & 0x40 != 0)
    }

    /// The full 9-bit day count.
    pub open spec fn spec_days(&self) -> int {
        (self.days_upper & 1) * 256 + self.days_lower
    }

    /// The epoch offset in seconds that the visible registers encode.
    pub open spec fn spec_current_offset(&self) -> int {
        self.spec_days() * 86400 + self.hours * 3600 + self.minutes * 60 + self.seconds
    }

    /// The wall seconds since the last reconciliation; zero while halted or
    /// if the wall clock ran backwards.
    pub open spec fn spec_elapsed(&self, now: u64) -> int {
        if self.halted {
            0
        } else if now >= self.last_modified {
            now - self.last_modified
        } else {
            0
        }
    }

    /// The total seconds a latch at wall second `now` distributes over the
    /// registers, saturated at the width of the accumulator.
    pub open spec fn spec_total(&self, now: u64) -> int {
        let t = self.spec_current_offset() + self.seconds_since_latch + self.spec_elapsed(now);
        if t > u64::MAX {
            u64::MAX as int
        } else {
            t
        }
    }

    /// The upper day register a latch leaves behind: the overflow bit once
    /// `total_days` passes 511 (sticky with the bit already set), the halt
    /// bit carried over, and bit 8 of the day count.
    pub open spec fn spec_days_upper_after(&self, total_days: int) -> u8 {
        ((if total_days >= 0x200 || self.days_upper >= 0x80 {
            0x80int
        } else {
            0int
        }) + (if self.halted {
            0x40int
        } else {
            0int
        }) + (total_days / 256) % 2) as u8
    }

    /// `post` is `pre` reconciled at wall second `now`: the total of the
    /// encoded offset, the accumulator and the wall delta, redistributed
    /// over the registers.
    pub open spec fn spec_latched(pre: RealTimeClock, post: RealTimeClock, now: u64) -> bool {
        let total = pre.spec_total(now);
        &&& post.seconds == total % 60
        &&& post.minutes == (total / 60) % 60
        &&& post.hours == (total / 3600) % 24
        &&& post.days_lower == (total / 86400) % 256
        &&& post.days_upper == pre.spec_days_upper_after(total / 86400)
        &&& post.halted == pre.halted
        &&& post.seconds_since_latch == 0
        &&& post.last_modified == now
    }

    /// A clock whose registers start from the given values (each masked to
    /// its width), reconciled to the wall clock of this moment.
    pub fn new(
        secs: Option<u8>,
        mins: Option<u8>,
        hrs: Option<u8>,
        days_lower: Option<u8>,
        days_upper: Option<u8>,
    ) -> (r: RealTimeClock)
        ensures
            r.wf(),
            r.seconds == (match secs {
                Some(s) => s,
                None => 0u8,
            }) & 0x3F,
            r.minutes == (match mins {
                Some(m) => m,
                None => 0u8,
            }) & 0x3F,
            r.hours == (match hrs {
                Some(h) => h,
                None => 0u8,
            }) & 0x1F,
            r.days_lower == match days_lower {
                Some(d) => d,
                None => 0u8,
            },
            r.days_upper == (match days_upper {
                Some(d) => d,
                None => 0u8,
            }) & 0xC1,
            r.halted == ((match days_upper {
                Some(d) => d,
                None => 0u8,
            }) & 0x40 != 0),
            r.seconds_since_latch == 0,
    {
        let now = wall_clock_seconds();
        let secs = match secs {
            Some(s) => s,
            None => 0,
        };
        let mins = match mins {
            Some(m) => m,
            None => 0,
        };
        let hrs = match hrs {
            Some(h) => h,
            None => 0,
        };
        let days_lower = match days_lower {
            Some(d) => d,
            None => 0,
        };
        let days_upper = match days_upper {
            Some(d) => d,
            None => 0,
        };
        proof {
            assert(secs & 0x3F < 64 && mins & 0x3F < 64 && hrs & 0x1F < 32 && (days_upper & 0xC1)
                & 0x3E == 0 && ((days_upper & 0xC1) & 0x40 != 0 <==> days_upper & 0x40 != 0))
                by (bit_vector);
        }
        RealTimeClock {
            last_modified: now,
            seconds_since_latch: 0,
            seconds: secs & 0x3F,
            minutes: mins & 0x3F,
            hours: hrs & 0x1F,
            days_lower,
            days_upper: days_upper & 0xC1,
            halted: days_upper & 0x40 != 0,  // bit 6 of the upper day register
        }
    }

    /// The epoch offset in seconds that the visible registers encode.
    fn current_offset(&self) -> (r: u64)
        requires
            self.wf(),
        ensures
            r == self.spec_current_offset(),
    {
        proof {
            let du = self.days_upper;
            assert(du & 1 <= 1) by (bit_vector);
        }
        let days = ((self.days_upper & 1) as u64) * 256 + (self.days_lower as u64);
        days * 86400 + (self.hours as u64) * 3600 + (self.minutes as u64) * 60 + (
        self.seconds as u64)
    }

    /// Reconcile the visible registers at wall second `now`: distribute the
    /// encoded offset plus all unaccounted running time over the registers,
    /// empty the accumulator and restart the baseline.
    pub fn latch_at(&mut self, now: u64)
        requires
            old(self).wf(),
        ensures
            final(self).wf(),
            RealTimeClock::spec_latched(*old(self), *final(self), now),
    {
        let current_seconds = self.current_offset();

        // When the clock is halted (not counting up), the baseline is
        // ignored, but the accumulator still holds the running time between
        // the previous latch and the moment the clock halted.
        let total_seconds: u64 = if self.halted {
            self.seconds_since_latch.saturating_add(current_seconds)
        } else {
            let elapsed_seconds = now.saturating_sub(self.last_modified);
            self.seconds_since_latch.saturating_add(current_seconds).saturating_add(
                elapsed_seconds,
            )
        };
        self.seconds_since_latch = 0;  // this value is consumed each time it is used

        self.seconds = (total_seconds % 60) as u8;
        self.minutes = ((total_seconds / 60) % 60) as u8;
        self.hours = ((total_seconds / 3600) % 24) as u8;
        let total_days = total_seconds / 86400;
        self.days_lower = (total_days % 256) as u8;
        self.days_upper = self.create_days_upper(total_days);

        self.last_modified = now;
    }

    /// Reconcile the visible registers against the wall clock of this
    /// moment. The relation to the previous state is that of a latch at some
    /// wall second.
    pub fn latch(&mut self)
        requires
            old(self).wf(),
        ensures
            final(self).wf(),
            exists|now: u64| RealTimeClock::spec_latched(*old(self), *final(self), now),
    {
        let now = wall_clock_seconds();
        self.latch_at(now);
        proof {
            assert(RealTimeClock::spec_latched(*old(self), *self, now));
        }
    }

    /// The upper day register after a latch that counted `total_days` days.
    /// The carry flag is never unset here; only an explicit program write
    /// clears it.
    fn create_days_upper(&self, total_days: u64) -> (r: u8)
        requires
            self.wf(),
        ensures
            r == self.spec_days_upper_after(total_days as int),
            r & 0x3E == 0,
            r & 0x40 != 0 <==> self.halted,
    {
        let carry: u8 = if total_days >= 0x200 || self.days_upper >= 0x80 {
            0x80
        } else {
            0
        };
        let halted: u8 = if self.halted {
            0x40
        } else {
            0
        };
        let days_bit: u8 = ((total_days / 256) % 2) as u8;
        let r = carry + halted + days_bit;
        proof {
            assert(r & 0x3E == 0 && (r & 0x40 != 0 <==> halted == 0x40)) by (bit_vector)
                requires
                    (carry == 0x80 || carry == 0) && (halted == 0x40 || halted == 0) && days_bit
                        <= 1 && r == carry + halted + days_bit,
            ;
        }
        r
    }

    /// Get the seconds value of the clock.
    pub fn get_seconds(&self) -> (r: u8)
        ensures
            r == self.seconds,
    {
        self.seconds
    }

    /// Get the minutes value of the clock.
    pub fn get_minutes(&self) -> (r: u8)
        ensures
            r == self.minutes,
    {
        self.minutes
    }

    /// Get the hours value of the clock.
    pub fn get_hours(&self) -> (r: u8)
        ensures
            r == self.hours,
    {
        self.hours
    }

    /// Get the lower 8 bits of the days value of the clock.
    pub fn get_days_lower(&self) -> (r: u8)
        ensures
            r == self.days_lower,
    {
        self.days_lower
    }

    /// Get the upper bits of the days value of the clock, including the
    /// overflow and halt bits.
    pub fn get_days_upper(&self) -> (r: u8)
        ensures
            r == self.days_upper,
    {
        self.days_upper
    }

    /// Overwrite the seconds register, masked to its 6 bits; returns the old
    /// value.
    pub fn set_seconds(&mut self, value: u8) -> (r: u8)
        requires
            old(self).wf(),
        ensures
            final(self).wf(),
            r == old(self).seconds,
            *final(self) == (RealTimeClock { seconds: value & 0x3F, ..*old(self) }),
    {
        proof {
            assert(value & 0x3F < 64) by (bit_vector);
        }
        let old_seconds = self.seconds;
        self.seconds = value & 0x3F;  // the actual register is only 6 bits
        old_seconds
    }

    /// Overwrite the minutes register, masked to its 6 bits; returns the old
    /// value.
    pub fn set_minutes(&mut self, value: u8) -> (r: u8)
        requires
            old(self).wf(),
        ensures
            final(self).wf(),
            r == old(self).minutes,
            *final(self) == (RealTimeClock { minutes: value & 0x3F, ..*old(self) }),
    {
        proof {
            assert(value & 0x3F < 64) by (bit_vector);
        }
        let old_minutes = self.minutes;
        self.minutes = value & 0x3F;  // the actual register is only 6 bits
        old_minutes
    }

    /// Overwrite the hours register, masked to its 5 bits; returns the old
    /// value.
    pub fn set_hours(&mut self, value: u8) -> (r: u8)
        requires
            old(self).wf(),
        ensures
            final(self).wf(),
            r == old(self).hours,
            *final(self) == (RealTimeClock { hours: value & 0x1F, ..*old(self) }),
    {
        proof {
            assert(value & 0x1F < 32) by (bit_vector);
        }
        let old_hours = self.hours;
        self.hours = value & 0x1F;  // the actual register is only 5 bits
        old_hours
    }

    /// Overwrite the lower day count register; returns the old value.
    pub fn set_days_lower(&mut self, value: u8) -> (r: u8)
        requires
            old(self).wf(),
        ensures
            final(self).wf(),
            r == old(self).days_lower,
            *final(self) == (RealTimeClock { days_lower: value, ..*old(self) }),
    {
        let old_days_lower = self.days_lower;
        self.days_lower = value;
        old_days_lower
    }

    /// How a write of `value` to the upper day register at wall second `now`
    /// transforms the clock: masked to the carry, halt and day bits, with
    /// the halt transitions accounted. Halting banks the running time into
    /// the accumulator; resuming restarts the baseline.
    pub open spec fn spec_days_upper_set(
        pre: RealTimeClock,
        post: RealTimeClock,
        value: u8,
        now: u64,
    ) -> bool {
        let halting = value & 0x40 != 0;
        &&& post.days_upper == value & 0xC1
        &&& post.halted == halting
        &&& post.seconds == pre.seconds
        &&& post.minutes == pre.minutes
        &&& post.hours == pre.hours
        &&& post.days_lower == pre.days_lower
        &&& post.last_modified == if pre.halted && !halting {
            now
        } else {
            pre.last_modified
        }
        &&& post.seconds_since_latch == if !pre.halted && halting {
            let t = pre.seconds_since_latch + pre.spec_elapsed(now);
            if t > u64::MAX {
                u64::MAX as int
            } else {
                t
            }
        } else {
            pre.seconds_since_latch as int
        }
    }

    /// Overwrite the upper day count register as of wall second `now`;
    /// returns the old value.
    pub fn set_days_upper_at(&mut self, value: u8, now: u64) -> (r: u8)
        requires
            old(self).wf(),
        ensures
            final(self).wf(),
            r == old(self).days_upper,
            RealTimeClock::spec_days_upper_set(*old(self), *final(self), value, now),
    {
        let halted = (value & 0x40) != 0;
        if self.halted && !halted {
            // resuming: restart the baseline so halted time never counts
            self.last_modified = now;
        } else if !self.halted && halted {
            // halting: bank the running time since the baseline
            let elapsed = now.saturating_sub(self.last_modified);
            self.seconds_since_latch = self.seconds_since_latch.saturating_add(elapsed);
        }
        self.halted = halted;

        let old_days_upper = self.days_upper;
        self.days_upper = value & 0xC1;
        proof {
            assert((value & 0xC1) & 0x3E == 0 && ((value & 0xC1) & 0x40 != 0 <==> value & 0x40
                != 0)) by (bit_vector);
        }
        old_days_upper
    }

    /// Overwrite the upper day count register as of the wall clock of this
    /// moment; returns the old value.
    pub fn set_days_upper(&mut self, value: u8) -> (r: u8)
        requires
            old(self).wf(),
        ensures
            final(self).wf(),
            r == old(self).days_upper,
            final(self).days_upper == value & 0xC1,
            final(self).halted == (value & 0x40 != 0),
            final(self).seconds == old(self).seconds,
            final(self).minutes == old(self).minutes,
            final(self).hours == old(self).hours,
            final(self).days_lower == old(self).days_lower,
            exists|now: u64|
                RealTimeClock::spec_days_upper_set(*old(self), *final(self), value, now),
    {
        let now = wall_clock_seconds();
        let r = self.set_days_upper_at(value, now);
        proof {
            assert(RealTimeClock::spec_days_upper_set(*old(self), *self, value, now));
        }
        r
    }
}

impl Default for RealTimeClock {
    /// A clock with every register zeroed, running, reconciled to the wall
    /// clock of this moment.
    fn default() -> (r: RealTimeClock)
        ensures
            r.wf(),
            r.seconds == 0u8,
            r.minutes == 0u8,
            r.hours == 0u8,
            r.days_lower == 0u8,
            r.days_upper == 0u8,
            !r.halted,
            r.seconds_since_latch == 0u64,
    {
        let r = RealTimeClock::new(None, None, None, None, None);
        proof {
            assert(0u8 & 0x3F == 0 && 0u8 & 0x1F == 0 && 0u8 & 0xC1 == 0 && 0u8 & 0x40 == 0)
                by (bit_vector);
        }
        r
    }
}

} // verus!
