use vstd::prelude::*;

verus! {

/// The DIV/TIMA timer unit.  A 16-bit counter `sys` advances once per
/// T-cycle; DIV is its high byte.  TIMA increments on each falling edge
/// of the `sys` bit selected by TAC, and on overflow reloads from TMA
/// and requests the timer interrupt.
#[derive(Clone, Copy, PartialEq, Eq, Structural, Debug)]
pub struct Timer {
    /// Free-running 16-bit system counter; DIV reads `sys / 256`.
    pub sys: u16,
    /// The timer counter register (FF05).
    pub tima: u8,
    /// The timer modulo register (FF06).
    pub tma: u8,
    /// The timer control register (FF07), low three bits kept.
    pub tac: u8,
}

/// The power of two that weights the `sys` bit selected by the low two
/// bits of TAC (bits 9, 3, 5, 7 for frequencies 4096, 262144, 65536,
/// 16384 Hz).
pub open spec fn sel_weight(tac: u8) -> int {
    if tac % 4 == 0 {
        512
    } else if tac % 4 == 1 {
        8
    } else if tac % 4 == 2 {
        32
    } else {
        128
    }
}

/// Whether TAC bit 2 enables the TIMA counter.
pub open spec fn timer_enabled(tac: u8) -> bool {
    tac / 4 % 2 == 1
}

/// The selected bit of a counter value.
pub open spec fn sel_bit(sys: u16, tac: u8) -> bool {
    (sys as int) / sel_weight(tac) % 2 == 1
}

/// One T-cycle of the timer: the advanced state and whether the timer
/// interrupt was requested.
pub open spec fn timer_step(t: Timer) -> (Timer, bool) {
    let sys2 = ((t.sys + 1) % 65536) as u16;
    let falling = sel_bit(t.sys, t.tac) && !sel_bit(sys2, t.tac);
    if timer_enabled(t.tac) && falling {
        if t.tima == 255 {
            (Timer { sys: sys2, tima: t.tma, ..t }, true)
        } else {
            (Timer { sys: sys2, tima: (t.tima + 1) as u8, ..t }, false)
        }
    } else {
        (Timer { sys: sys2, ..t }, false)
    }
}

/// `n` T-cycles of the timer; the boolean says whether any of them
/// requested the interrupt.
pub open spec fn timer_run(t: Timer, n: nat) -> (Timer, bool)
    decreases n,
{
    if n == 0 {
        (t, false)
    } else {
        let prev = timer_run(t, (n - 1) as nat);
        let last = timer_step(prev.0);
        (last.0, prev.1 || last.1)
    }
}

impl Timer {
    /// A timer at power-on: all registers clear.
    pub fn new() -> (r: Timer)
        ensures
            r == (Timer { sys: 0, tima: 0, tma: 0, tac: 0 }),
    {
        Timer { sys: 0, tima: 0, tma: 0, tac: 0 }
    }

    /// Advance the timer by `n` T-cycles, reporting whether TIMA
    /// overflowed in any of them.
    pub fn tick(&mut self, n: u32) -> (irq: bool)
        ensures
            (*final(self), irq) == timer_run(*old(self), n as nat),
    {
        let mut irq: bool = false;
        let mut i: u32 = 0;
        while i < n
            invariant
                i <= n,
                (*self, irq) == timer_run(*old(self), i as nat),
            decreases n - i,
        {
            let sys2: u16 = ((self.sys as u32 + 1) % 65536) as u16;
            let w: u16 = self.sel_weight_exec();
            let falling = self.sys / w % 2 == 1 && sys2 / w % 2 == 0;
            if self.tac / 4 % 2 == 1 && falling {
                if self.tima == 255 {
                    self.tima = self.tma;
                    irq = true;
                } else {
                    self.tima = self.tima + 1;
                }
            }
            self.sys = sys2;
            i = i + 1;
        }
        irq
    }

    /// The weight of the TAC-selected `sys` bit, as executable code.
    fn sel_weight_exec(&self) -> (r: u16)
        ensures
            r == sel_weight(self.tac),
    {
        let s = self.tac % 4;
        if s == 0 {
            512
        } else if s == 1 {
            8
        } else if s == 2 {
            32
        } else {
            128
        }
    }

    /// DIV (FF04) reads the high byte of the system counter.
    pub fn get_div(&self) -> (r: u8)
        ensures
            r == self.sys / 256,
    {
        (self.sys / 256) as u8
    }

    /// Any write to DIV (FF04) clears the whole system counter.
    pub fn reset_div(&mut self)
        ensures
            *final(self) == (Timer { sys: 0, ..*old(self) }),
    {
        self.sys = 0;
    }

    pub fn get_tima(&self) -> (r: u8)
        ensures
            r == self.tima,
    {
        self.tima
    }

    pub fn set_tima(&mut self, v: u8)
        ensures
            *final(self) == (Timer { tima: v, ..*old(self) }),
    {
        self.tima = v;
    }

    pub fn get_tma(&self) -> (r: u8)
        ensures
            r == self.tma,
    {
        self.tma
    }

    pub fn set_tma(&mut self, v: u8)
        ensures
            *final(self) == (Timer { tma: v, ..*old(self) }),
    {
        self.tma = v;
    }

    pub fn get_tac(&self) -> (r: u8)
        ensures
            r == self.tac,
    {
        self.tac
    }

    /// Only the enable bit and the two clock-select bits of TAC are
    /// stored.
    pub fn set_tac(&mut self, v: u8)
        ensures
            *final(self) == (Timer { tac: (v % 8) as u8, ..*old(self) }),
    {
        self.tac = v % 8;
    }
}

} // verus!
