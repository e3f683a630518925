use vstd::prelude::*;

use crate::bus::{Bus, BusView, JOYPAD, LCD_STAT, TIMER, VBLANK};
use crate::cartridge::{load_err, load_rom, load_spec, save_view, CartError, CartView};
use crate::cpu::{cpu_reset_state, Cpu};
use crate::isa::step_spec;
use crate::joypad::{key_of, with_key, KeyState, Message};
use crate::ppu::ppu_run;
use crate::rtc::clamp_time_spec;
use crate::timer::{timer_run, Timer};

verus! {

/// Relies on time::OffsetDateTime::now_utc, read out through
/// unix_timestamp: the host wall clock as whole seconds since the
/// Unix epoch, for the MBC3 real-time clock.  Nothing is promised of
/// the value: it depends on the host clock.
#[verifier::external_body]
fn now_unix_seconds() -> i64 {
    time::OffsetDateTime::now_utc().unix_timestamp()
}

/// An upper bound on the T-cycles one call will run before giving up
/// on a frame, so that a guest that disables the LCD cannot stall the
/// host: four frames' worth.
pub const FRAME_CYCLE_CAP: u32 = 280896;

/// The whole emulator core: the processor and the bus that owns every
/// other component.
pub struct Emu {
    pub cpu: Cpu,
    pub bus: Bus,
}

impl Emu {
    /// Build an emulator from a ROM image and the contents of its
    /// save-file companion, if one was found.  The wall clock seeds
    /// the MBC3 real-time clock.
    pub fn new(rom: Vec<u8>, save: Option<Vec<u8>>) -> (r: Result<Emu, CartError>)
        ensures
            match r {
                Ok(e) => {
                    &&& load_err(rom@, save_view(save)) is None
                    &&& e.bus@.wf()
                    &&& e.cpu == cpu_reset_state()
                    &&& exists|t: i64| e.bus@.cartridge == load_spec(rom@, save_view(save), t)
                },
                Err(er) => load_err(rom@, save_view(save)) == Some(er),
            },
    {
        let now = now_unix_seconds();
        let cartridge = match load_rom(rom, save, now) {
            Ok(c) => c,
            Err(e) => { return Err(e) },
        };
        let bus = Bus::new(cartridge);
        let mut cpu = Cpu::new();
        cpu.reset();
        Ok(Emu { cpu, bus })
    }

    /// Set one of the five interrupt-request bits.
    fn raise_irq(&mut self, bit: u8)
        requires
            old(self).bus@.wf(),
            bit == 1 || bit == 2 || bit == 4 || bit == 8 || bit == 16,
        ensures
            final(self).bus@.wf(),
            final(self).cpu == old(self).cpu,
            final(self).bus@ == (BusView {
                requested_interrupts: set_bit_spec(old(self).bus@.requested_interrupts, bit),
                ..old(self).bus@
            }),
    {
        let cur = self.bus.requested_interrupts;
        if cur / bit % 2 == 0 {
            assert(cur + bit < 32);
            self.bus.requested_interrupts = cur + bit;
        }
        proof {
            assert(self.bus@ =~= (BusView {
                requested_interrupts: set_bit_spec(old(self).bus@.requested_interrupts, bit),
                ..old(self).bus@
            }));
        }
    }

    /// One processor step with the PPU advanced by its cycles, and
    /// the VBLANK and STAT edges ORed into IF.
    #[verifier::rlimit(100)]
    #[verifier::spinoff_prover]
    fn step_and_ppu(&mut self) -> (r: (u32, bool))
        requires
            old(self).bus@.wf(),
        ensures
            final(self).bus@.wf(),
            4 <= r.0 <= 24,
            ({
                let s = step_spec(old(self).cpu, old(self).bus@);
                let p = ppu_run(s.bus.ppu, s.cycles as nat);
                let b1 = BusView { ppu: p.0, ..s.bus };
                let b2 = if p.1 {
                    raise_spec(b1, VBLANK)
                } else {
                    b1
                };
                let b3 = if p.2 {
                    raise_spec(b2, LCD_STAT)
                } else {
                    b2
                };
                &&& r.0 == s.cycles
                &&& r.1 == p.1
                &&& final(self).cpu == s.cpu
                &&& final(self).bus@ == b3
            }),
    {
        let ghost cpre = self.cpu;
        let ghost bpre = self.bus@;
        let ghost s_bus = step_spec(cpre, bpre).bus;
        let cycles = self.cpu.step(&mut self.bus);
        let (vb, st) = self.bus.ppu.tick(cycles);
        let ghost p = ppu_run(s_bus.ppu, cycles as nat);
        let ghost b1 = BusView { ppu: p.0, ..s_bus };
        proof {
            assert(self.bus@ == b1);
        }
        if vb {
            self.raise_irq(VBLANK);
        }
        let ghost b2 = if vb {
            raise_spec(b1, VBLANK)
        } else {
            b1
        };
        proof {
            assert(self.bus@ == b2);
        }
        if st {
            self.raise_irq(LCD_STAT);
        }
        let ghost b3 = if st {
            raise_spec(b2, LCD_STAT)
        } else {
            b2
        };
        proof {
            assert(self.bus@ == b3);
        }
        (cycles, vb)
    }

    /// One driver iteration: one processor step, the PPU and the
    /// timer advanced by its cycles, and every raised edge ORed into
    /// IF.  Returns the cycles spent and whether the VBLANK edge was
    /// crossed.
    #[verifier::rlimit(100)]
    #[verifier::spinoff_prover]
    fn frame_iter(&mut self) -> (r: (u32, bool))
        requires
            old(self).bus@.wf(),
        ensures
            final(self).bus@.wf(),
            4 <= r.0 <= 24,
            (final(self).cpu, final(self).bus@, r.0, r.1) == frame_iter_spec(
                old(self).cpu,
                old(self).bus@,
            ),
    {
        let ghost cpre = self.cpu;
        let ghost bpre = self.bus@;
        let (cycles, vb) = self.step_and_ppu();
        let ghost b3 = self.bus@;
        let t_irq = self.bus.timer.tick(cycles);
        let ghost t = timer_run(b3.timer, cycles as nat);
        let ghost b4 = BusView { timer: t.0, ..b3 };
        proof {
            assert(self.bus@ == b4);
        }
        if t_irq {
            self.raise_irq(TIMER);
        }
        let ghost b5 = if t_irq {
            raise_spec(b4, TIMER)
        } else {
            b4
        };
        proof {
            assert(self.bus@ == b5);
            lemma_frame_iter_compose(
                cpre,
                bpre,
                self.cpu,
                self.bus@,
                cycles,
                vb,
                t_irq,
                b3,
                t,
            );
        }
        (cycles, vb)
    }

    /// Run the core until the PPU crosses its VBLANK edge, then hand
    /// the finished frame out as RGB24 bytes.  Host button edges are
    /// delivered before the run; a guest that keeps the LCD disabled
    /// is cut off after a few frames' worth of cycles.
    #[verifier::rlimit(100)]
    #[verifier::spinoff_prover]
    pub fn get_next_frame(&mut self, events: &Vec<Message>, frame: &mut Vec<u8>)
        requires
            old(self).bus@.wf(),
            old(frame)@.len() == 160 * 144 * 3,
        ensures
            final(self).bus@.wf(),
            final(frame)@.len() == 160 * 144 * 3,
            exists|t: i64|
                frame_post(
                    old(self).cpu,
                    old(self).bus@,
                    events@,
                    t,
                    final(self).cpu,
                    final(self).bus@,
                ),
            forall|i: int|
                0 <= i < 160 * 144 ==> final(frame)@[3 * i] == final(self).bus@.ppu.fb[i].r
                    && final(frame)@[3 * i + 1] == final(self).bus@.ppu.fb[i].g && final(frame)@[3
                    * i + 2] == final(self).bus@.ppu.fb[i].b,
    {
        let ghost c0 = self.cpu;
        let ghost bv0 = self.bus@;
        let now = now_unix_seconds();
        self.bus.cartridge.set_now(now);
        let ghost bnow = self.bus@;
        proof {
            assert(bnow =~= (BusView {
                cartridge: CartView { now: clamp_time_spec(now as int), ..bv0.cartridge },
                ..bv0
            }));
        }
        let mut i: usize = 0;
        while i < events.len()
            invariant
                i <= events@.len(),
                self.bus@.wf(),
                self.cpu == c0,
                self.bus@ == apply_events_spec(bnow, events@, i as int),
            decreases events@.len() - i,
        {
            let ghost pre = self.bus@;
            if self.bus.joypad.update(events[i]) {
                self.raise_irq(JOYPAD);
                proof {
                    assert(self.bus@ =~= apply_event_spec(pre, events@[i as int]));
                }
            } else {
                proof {
                    assert(self.bus@ =~= apply_event_spec(pre, events@[i as int]));
                }
            }
            i = i + 1;
        }
        let ghost bev = self.bus@;
        let mut spent: u32 = 0;
        let mut frame_done = false;
        while !frame_done && spent < FRAME_CYCLE_CAP
            invariant
                self.bus@.wf(),
                spent <= FRAME_CYCLE_CAP + 24,
                frame_loop_spec(self.cpu, self.bus@, spent, frame_done) == frame_loop_spec(
                    c0,
                    bev,
                    0,
                    false,
                ),
            decreases FRAME_CYCLE_CAP + 24 - spent,
        {
            let ghost cpre = self.cpu;
            let ghost bpre = self.bus@;
            let (cycles, vb) = self.frame_iter();
            proof {
                lemma_frame_loop_step(cpre, bpre, spent, self.cpu, self.bus@, cycles, vb);
            }
            if vb {
                frame_done = true;
            }
            spent = spent + cycles;
        }
        proof {
            assert(frame_post(c0, bv0, events@, now, self.cpu, self.bus@));
        }
        self.bus.ppu.render(frame);
    }

    /// The bytes the save-file companion should hold at teardown.
    pub fn save_bytes(&self) -> (r: Vec<u8>)
        ensures
            r@ == crate::cartridge::save_bytes_spec(self.bus@.cartridge),
    {
        self.bus.cartridge.save_bytes()
    }
}

/// A byte with one interrupt bit put in, if it was missing.
pub open spec fn set_bit_spec(x: u8, b: u8) -> u8 {
    if b > 0 && (x as int) / (b as int) % 2 == 0 {
        (x + b) as u8
    } else {
        x
    }
}

/// A bus with one interrupt-request bit raised.
pub open spec fn raise_spec(b: BusView, bit: u8) -> BusView {
    BusView { requested_interrupts: set_bit_spec(b.requested_interrupts, bit), ..b }
}

/// One host edge applied to the bus: the button state changes, and a
/// released-to-pressed edge raises the JOYPAD bit.
pub open spec fn apply_event_spec(b: BusView, m: Message) -> BusView {
    match m {
        Message::KeyDown(k) => {
            let b1 = BusView { joypad: with_key(b.joypad, k, KeyState::Pressed), ..b };
            if key_of(b.joypad, k) == KeyState::Released {
                raise_spec(b1, JOYPAD)
            } else {
                b1
            }
        },
        Message::KeyUp(k) => BusView { joypad: with_key(b.joypad, k, KeyState::Released), ..b },
    }
}

/// The first `i` host edges applied in order.
pub open spec fn apply_events_spec(b: BusView, evs: Seq<Message>, i: int) -> BusView
    decreases i,
{
    if i <= 0 {
        b
    } else {
        apply_event_spec(apply_events_spec(b, evs, i - 1), evs[i - 1])
    }
}

/// One driver iteration: one processor step, then the PPU and the
/// timer advanced by its cycles in lockstep, with every edge they
/// raised ORed into IF.  Returns the new state, the cycles, and
/// whether the VBLANK edge was crossed.
#[verifier::opaque]
pub open spec fn frame_iter_spec(c: Cpu, b: BusView) -> (Cpu, BusView, u32, bool) {
    let s = step_spec(c, b);
    let p = ppu_run(s.bus.ppu, s.cycles as nat);
    let b1 = BusView { ppu: p.0, ..s.bus };
    let b2 = if p.1 {
        raise_spec(b1, VBLANK)
    } else {
        b1
    };
    let b3 = if p.2 {
        raise_spec(b2, LCD_STAT)
    } else {
        b2
    };
    let t = timer_run(b3.timer, s.cycles as nat);
    let b4 = BusView { timer: t.0, ..b3 };
    let b5 = if t.1 {
        raise_spec(b4, TIMER)
    } else {
        b4
    };
    (s.cpu, b5, s.cycles, p.1)
}

/// The driver loop: iterate until the VBLANK edge or the cycle cap.
/// The guards on the reported cycle count are never taken - a step
/// costs 4 to 24 cycles - but keep the recursion well-founded.
pub open spec fn frame_loop_spec(c: Cpu, b: BusView, spent: u32, done: bool) -> (Cpu, BusView)
    decreases FRAME_CYCLE_CAP + 24 - spent,
{
    if done || spent >= FRAME_CYCLE_CAP {
        (c, b)
    } else {
        let it = frame_iter_spec(c, b);
        if it.2 < 4 || it.2 > 24 {
            (it.0, it.1)
        } else {
            frame_loop_spec(it.0, it.1, (spent + it.2) as u32, it.3)
        }
    }
}

/// Composing the pieces of one driver iteration - the processor step
/// with the PPU edges folded in, then the timer with its edge - gives
/// exactly `frame_iter_spec`.
#[verifier::rlimit(100)]
#[verifier::spinoff_prover]
proof fn lemma_frame_iter_compose(
    cpre: Cpu,
    bpre: BusView,
    ccur: Cpu,
    bcur: BusView,
    cycles: u32,
    vb: bool,
    t_irq: bool,
    b3: BusView,
    t: (Timer, bool),
)
    requires
        ({
            let s = step_spec(cpre, bpre);
            let p = ppu_run(s.bus.ppu, s.cycles as nat);
            let b1 = BusView { ppu: p.0, ..s.bus };
            let b2 = if p.1 {
                raise_spec(b1, VBLANK)
            } else {
                b1
            };
            &&& cycles == s.cycles
            &&& vb == p.1
            &&& ccur == s.cpu
            &&& b3 == (if p.2 {
                raise_spec(b2, LCD_STAT)
            } else {
                b2
            })
        }),
        t == timer_run(b3.timer, cycles as nat),
        t_irq == t.1,
        bcur == (if t_irq {
            raise_spec(BusView { timer: t.0, ..b3 }, TIMER)
        } else {
            BusView { timer: t.0, ..b3 }
        }),
    ensures
        (ccur, bcur, cycles, vb) == frame_iter_spec(cpre, bpre),
{
    reveal(crate::emu::frame_iter_spec);
}

/// One unfolding of the driver loop: an iteration whose step cost
/// lies in the real 4-to-24 range advances the loop state.
proof fn lemma_frame_loop_step(
    c: Cpu,
    b: BusView,
    spent: u32,
    cn: Cpu,
    bn: BusView,
    cycles: u32,
    vb: bool,
)
    requires
        spent < FRAME_CYCLE_CAP,
        4 <= cycles <= 24,
        (cn, bn, cycles, vb) == frame_iter_spec(c, b),
    ensures
        frame_loop_spec(c, b, spent, false) == frame_loop_spec(cn, bn, (spent + cycles) as u32, vb),
{
}

/// What one `get_next_frame` call does to the core, for wall clock
/// `t`: the clock is fed to the cartridge, the host edges are applied
/// in order, and the driver loop runs to the VBLANK edge or the cap.
pub open spec fn frame_post(
    c0: Cpu,
    b0: BusView,
    evs: Seq<Message>,
    t: i64,
    c1: Cpu,
    b1: BusView,
) -> bool {
    let bnow = BusView { cartridge: CartView { now: clamp_time_spec(t as int), ..b0.cartridge }, ..b0 };
    let bev = apply_events_spec(bnow, evs, evs.len() as int);
    let fin = frame_loop_spec(c0, bev, 0, false);
    c1 == fin.0 && b1 == fin.1
}

} // verus!
