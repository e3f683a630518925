use vstd::prelude::*;

verus! {

/// Upper bound kept on every stored instant, far beyond any realistic
/// wall-clock second count, so that the register arithmetic below can
/// never overflow an i64.
pub const RTC_MAX: i64 = 0x100_0000_0000;

/// The MBC3 real-time clock.  While running, the game-visible time is
/// `now + offset` seconds since the epoch; while halted it is the
/// frozen `halt_time`.  A latch freezes a read-out snapshot.
#[derive(Clone, Copy, PartialEq, Eq, Structural, Debug)]
pub struct Rtc {
    /// Signed offset of the running clock from the wall clock.
    pub offset: i64,
    /// Whether the halt bit of DH is set.
    pub halted: bool,
    /// The frozen instant while halted.
    pub halt_time: i64,
    /// Whether a latch snapshot is active.
    pub latched: bool,
    /// The snapshot taken by the last latch.
    pub latch_time: i64,
}

impl Rtc {
    /// All stored instants stay in range.
    pub open spec fn wf(self) -> bool {
        &&& 0 <= self.halt_time <= RTC_MAX
        &&& 0 <= self.latch_time <= RTC_MAX
        &&& -RTC_MAX <= self.offset <= RTC_MAX
    }
}

/// Clamp an instant into the range the clock stores.
pub open spec fn clamp_time_spec(t: int) -> i64 {
    if t < 0 {
        0
    } else if t > RTC_MAX {
        RTC_MAX
    } else {
        t as i64
    }
}

/// The game-visible time in seconds, for a wall clock reading `now`.
pub open spec fn game_time_spec(r: Rtc, now: i64) -> i64 {
    if r.latched {
        r.latch_time
    } else if r.halted {
        r.halt_time
    } else {
        clamp_time_spec(now + r.offset)
    }
}

/// The clock after the game-visible time is replaced: frozen time when
/// halted, a new wall-clock offset when running.
pub open spec fn set_time_spec(r: Rtc, now: i64, t: i64) -> Rtc {
    if r.halted {
        Rtc { halt_time: t, ..r }
    } else {
        Rtc { offset: (t - now) as i64, ..r }
    }
}

/// One of the five RTC registers, selected by the MBC3 bank values
/// 8 to 12: seconds, minutes, hours, day-low, and the day-high /
/// halt / overflow byte.
pub open spec fn rtc_reg_spec(r: Rtc, now: i64, sel: u8) -> u8 {
    let t = game_time_spec(r, now) as int;
    if sel == 8 {
        (t % 60) as u8
    } else if sel == 9 {
        (t / 60 % 60) as u8
    } else if sel == 10 {
        (t / 3600 % 24) as u8
    } else if sel == 11 {
        (t / 86400 % 256) as u8
    } else {
        let days = t / 86400;
        ((days / 256 % 2) + (if days >= 0x200 { 0x80int } else { 0 }) + (if r.halted {
            0x40int
        } else {
            0
        })) as u8
    }
}

/// The clock after a write to one of the five registers.  Seconds,
/// minutes and hours are replaced when the value is in range and
/// ignored otherwise; the day registers follow the MBC3 layout; bit 6
/// of DH halts or resumes the clock.
pub open spec fn rtc_write_spec(r: Rtc, now: i64, sel: u8, val: u8) -> Rtc {
    let t = game_time_spec(r, now) as int;
    if sel == 8 {
        if val < 60 {
            set_time_spec(r, now, clamp_time_spec(t - t % 60 + val))
        } else {
            r
        }
    } else if sel == 9 {
        if val < 60 {
            set_time_spec(r, now, clamp_time_spec(t - (t / 60 % 60) * 60 + val * 60))
        } else {
            r
        }
    } else if sel == 10 {
        if val < 24 {
            set_time_spec(r, now, clamp_time_spec(t - (t / 3600 % 24) * 3600 + val * 3600))
        } else {
            r
        }
    } else if sel == 11 {
        let secs = t % 86400;
        let days = t / 86400;
        let new_days = (days / 256 % 2) * 256 + val;
        set_time_spec(r, now, clamp_time_spec(secs + new_days * 86400))
    } else {
        let secs = t % 86400;
        let days = t / 86400;
        let new_days = (val % 2) * 256 + days % 256;
        let r1 = set_time_spec(r, now, clamp_time_spec(secs + new_days * 86400));
        let t1 = game_time_spec(r1, now);
        if val / 64 % 2 == 1 {
            if !r1.halted {
                Rtc { halted: true, halt_time: t1, ..r1 }
            } else {
                r1
            }
        } else {
            if r1.halted {
                Rtc { halted: false, offset: (r1.halt_time - now) as i64, ..r1 }
            } else {
                r1
            }
        }
    }
}

/// The clock after a write to the latch range: zero drops the
/// snapshot, any other value takes one.
pub open spec fn rtc_latch_spec(r: Rtc, now: i64, val: u8) -> Rtc {
    if val == 0 {
        Rtc { latched: false, ..r }
    } else {
        Rtc { latched: true, latch_time: game_time_spec(Rtc { latched: false, ..r }, now), ..r }
    }
}

/// Writing the seconds, minutes, hours or day-low register with an
/// in-range value and then latching (a 0 write followed by a non-zero
/// write to the latch range) reads that value back from the same
/// register.  The clock must stand far enough below its storage
/// ceiling that no clamping distorts the write; a clock near the
/// ceiling may read back a clamped value instead.
pub proof fn lemma_rtc_write_latch_read(r: Rtc, now: i64, sel: u8, v: u8)
    requires
        r.wf(),
        0 <= now <= RTC_MAX,
        8 <= sel <= 11,
        sel == 8 ==> v < 60,
        sel == 9 ==> v < 60,
        sel == 10 ==> v < 24,
        game_time_spec(r, now) + 0x4000000 <= RTC_MAX,
    ensures
        ({
            let r2 = rtc_write_spec(r, now, sel, v);
            let r3 = rtc_latch_spec(rtc_latch_spec(r2, now, 0), now, 1);
            rtc_reg_spec(r3, now, sel) == v
        }),
{
    let t = game_time_spec(r, now) as int;
    assert(0 <= t <= RTC_MAX);
    if sel == 8 {
        let t2: int = t - t % 60 + v;
        assert(t - t % 60 == 60 * (t / 60)) by (nonlinear_arith);
        assert(t2 % 60 == v) by (nonlinear_arith)
            requires
                t2 == 60 * (t / 60) + v,
                0 <= v < 60,
        ;
        assert(0 <= t2 <= RTC_MAX);
        lemma_set_latch(r, now, t2);
    } else if sel == 9 {
        let t2: int = t - (t / 60 % 60) * 60 + v * 60;
        assert(t / 60 - t / 60 % 60 == 60 * (t / 3600)) by (nonlinear_arith);
        assert(t == 60 * (t / 60) + t % 60) by (nonlinear_arith);
        assert(t2 == 60 * (60 * (t / 3600) + v) + t % 60) by (nonlinear_arith)
            requires
                t2 == t - (t / 60 % 60) * 60 + v * 60,
                t == 60 * (t / 60) + t % 60,
                t / 60 - t / 60 % 60 == 60 * (t / 3600),
        ;
        assert(t2 / 60 == 60 * (t / 3600) + v && t2 >= 0) by (nonlinear_arith)
            requires
                t2 == 60 * (60 * (t / 3600) + v) + t % 60,
                0 <= t % 60 < 60,
                t / 3600 >= 0,
                0 <= v,
        ;
        assert(t2 / 60 % 60 == v) by (nonlinear_arith)
            requires
                t2 / 60 == 60 * (t / 3600) + v,
                t / 3600 >= 0,
                0 <= v < 60,
        ;
        assert(t2 <= RTC_MAX);
        lemma_set_latch(r, now, t2);
    } else if sel == 10 {
        let t2: int = t - (t / 3600 % 24) * 3600 + v * 3600;
        assert(t / 3600 - t / 3600 % 24 == 24 * (t / 86400)) by (nonlinear_arith);
        assert(t == 3600 * (t / 3600) + t % 3600) by (nonlinear_arith);
        assert(t2 == 3600 * (24 * (t / 86400) + v) + t % 3600) by (nonlinear_arith)
            requires
                t2 == t - (t / 3600 % 24) * 3600 + v * 3600,
                t == 3600 * (t / 3600) + t % 3600,
                t / 3600 - t / 3600 % 24 == 24 * (t / 86400),
        ;
        assert(t2 / 3600 == 24 * (t / 86400) + v && t2 >= 0) by (nonlinear_arith)
            requires
                t2 == 3600 * (24 * (t / 86400) + v) + t % 3600,
                0 <= t % 3600 < 3600,
                t / 86400 >= 0,
                0 <= v,
        ;
        assert(t2 / 3600 % 24 == v) by (nonlinear_arith)
            requires
                t2 / 3600 == 24 * (t / 86400) + v,
                t / 86400 >= 0,
                0 <= v < 24,
        ;
        assert(t2 <= RTC_MAX);
        lemma_set_latch(r, now, t2);
    } else {
        let days = t / 86400;
        let new_days = (days / 256 % 2) * 256 + v;
        let t2: int = t % 86400 + new_days * 86400;
        assert(0 <= t % 86400 < 86400 && days >= 0) by (nonlinear_arith)
            requires
                0 <= t,
                days == t / 86400,
        ;
        assert(t2 / 86400 == new_days && t2 >= 0) by (nonlinear_arith)
            requires
                t2 == t % 86400 + new_days * 86400,
                0 <= t % 86400 < 86400,
                new_days >= 0,
        ;
        assert(t2 / 86400 % 256 == v) by (nonlinear_arith)
            requires
                t2 / 86400 == new_days,
                new_days == (days / 256 % 2) * 256 + v,
                days / 256 % 2 >= 0,
                0 <= v < 256,
        ;
        assert(new_days <= 512 + 255);
        assert(t2 <= RTC_MAX);
        lemma_set_latch(r, now, t2);
    }
}

/// After the game time is replaced and a fresh latch is taken, the
/// latched time is the replaced value (no clamping occurring).
proof fn lemma_set_latch(r: Rtc, now: i64, t2: int)
    requires
        r.wf(),
        0 <= now <= RTC_MAX,
        0 <= t2 <= RTC_MAX,
    ensures
        ({
            let r2 = set_time_spec(r, now, clamp_time_spec(t2));
            let r3 = rtc_latch_spec(rtc_latch_spec(r2, now, 0), now, 1);
            r3.latched && r3.latch_time == t2
        }),
{
}

/// Clamp an instant into the range the clock stores.
pub fn clamp_time(t: i64) -> (r: i64)
    ensures
        r == clamp_time_spec(t as int),
{
    if t < 0 {
        0
    } else if t > RTC_MAX {
        RTC_MAX
    } else {
        t
    }
}

impl Rtc {
    /// A clock halted at the epoch, as a cartridge without a save file
    /// starts.
    pub fn new() -> (r: Rtc)
        ensures
            r == (Rtc { offset: 0, halted: true, halt_time: 0, latched: false, latch_time: 0 }),
    {
        Rtc { offset: 0, halted: true, halt_time: 0, latched: false, latch_time: 0 }
    }

    /// The game-visible time for the given wall clock.
    pub fn game_time(&self, now: i64) -> (t: i64)
        requires
            self.wf(),
            0 <= now <= RTC_MAX,
        ensures
            t == game_time_spec(*self, now),
            0 <= t <= RTC_MAX,
    {
        if self.latched {
            self.latch_time
        } else if self.halted {
            self.halt_time
        } else {
            clamp_time(now + self.offset)
        }
    }

    /// Replace the game-visible time.
    fn set_time(&mut self, now: i64, t: i64)
        requires
            old(self).wf(),
            0 <= now <= RTC_MAX,
            0 <= t <= RTC_MAX,
        ensures
            *final(self) == set_time_spec(*old(self), now, t),
            final(self).wf(),
    {
        if self.halted {
            self.halt_time = t;
        } else {
            self.offset = t - now;
        }
    }

    /// Read one of the five RTC registers (selector 8 to 12).
    pub fn read_reg(&self, now: i64, sel: u8) -> (v: u8)
        requires
            self.wf(),
            0 <= now <= RTC_MAX,
            8 <= sel <= 12,
        ensures
            v == rtc_reg_spec(*self, now, sel),
    {
        let t = self.game_time(now);
        if sel == 8 {
            (t % 60) as u8
        } else if sel == 9 {
            (t / 60 % 60) as u8
        } else if sel == 10 {
            (t / 3600 % 24) as u8
        } else if sel == 11 {
            (t / 86400 % 256) as u8
        } else {
            let days = t / 86400;
            let mut v: u8 = (days / 256 % 2) as u8;
            if days >= 0x200 {
                v = v + 0x80;
            }
            if self.halted {
                v = v + 0x40;
            }
            v
        }
    }

    /// Write one of the five RTC registers (selector 8 to 12).
    pub fn write_reg(&mut self, now: i64, sel: u8, val: u8)
        requires
            old(self).wf(),
            0 <= now <= RTC_MAX,
            8 <= sel <= 12,
        ensures
            *final(self) == rtc_write_spec(*old(self), now, sel, val),
            final(self).wf(),
    {
        let t = self.game_time(now);
        if sel == 8 {
            if val < 60 {
                self.set_time(now, clamp_time(t - t % 60 + val as i64));
            }
        } else if sel == 9 {
            if val < 60 {
                self.set_time(now, clamp_time(t - (t / 60 % 60) * 60 + val as i64 * 60));
            }
        } else if sel == 10 {
            if val < 24 {
                self.set_time(now, clamp_time(t - (t / 3600 % 24) * 3600 + val as i64 * 3600));
            }
        } else if sel == 11 {
            let secs = t % 86400;
            let days = t / 86400;
            let new_days = (days / 256 % 2) * 256 + val as i64;
            self.set_time(now, clamp_time(secs + new_days * 86400));
        } else {
            let secs = t % 86400;
            let days = t / 86400;
            let new_days = (val as i64 % 2) * 256 + days % 256;
            self.set_time(now, clamp_time(secs + new_days * 86400));
            if val / 64 % 2 == 1 {
                if !self.halted {
                    let t1 = self.game_time(now);
                    self.halted = true;
                    self.halt_time = t1;
                }
            } else {
                if self.halted {
                    self.offset = self.halt_time - now;
                    self.halted = false;
                }
            }
        }
    }

    /// Write to the 6000-7FFF latch range.
    pub fn latch(&mut self, now: i64, val: u8)
        requires
            old(self).wf(),
            0 <= now <= RTC_MAX,
        ensures
            *final(self) == rtc_latch_spec(*old(self), now, val),
            final(self).wf(),
    {
        if val == 0 {
            self.latched = false;
        } else {
            let live = Rtc { latched: false, ..*self };
            let t = live.game_time(now);
            self.latched = true;
            self.latch_time = t;
        }
    }
}

} // verus!
