use vstd::prelude::*;

verus! {

/// Register shadow of one square-wave channel.
#[derive(Clone, Copy, PartialEq, Eq, Structural, Debug)]
pub struct Pulse {
    pub sweep_time: u8,
    pub negate: bool,
    pub sweep_shift: u8,
    pub duty: u8,
    pub sound_length: u8,
    pub envelope_vol: u8,
    pub envelope_increase: bool,
    pub envelope_sweep: u8,
    pub frequency: u16,
    pub trigger: bool,
    pub length_en: bool,
}

impl Pulse {
    /// A silent channel with every register clear.
    pub fn new() -> (r: Pulse)
        ensures
            r == pulse_default(),
    {
        Pulse {
            sweep_time: 0,
            negate: false,
            sweep_shift: 0,
            duty: 0,
            sound_length: 0,
            envelope_vol: 0,
            envelope_increase: false,
            envelope_sweep: 0,
            frequency: 0,
            trigger: false,
            length_en: false,
        }
    }
}

/// The power-on state of a square-wave channel.
pub open spec fn pulse_default() -> Pulse {
    Pulse {
        sweep_time: 0,
        negate: false,
        sweep_shift: 0,
        duty: 0,
        sound_length: 0,
        envelope_vol: 0,
        envelope_increase: false,
        envelope_sweep: 0,
        frequency: 0,
        trigger: false,
        length_en: false,
    }
}

/// Register shadow of the wave channel, with its 32-nibble pattern.
pub struct Wave {
    pub enabled: bool,
    pub length: u16,
    pub volume_shift: u8,
    pub frequency: u16,
    pub length_en: bool,
    pub trigger: bool,
    pub pattern: Vec<u8>,
}

/// The mathematical model of the wave channel.
#[verifier::ext_equal]
pub struct WaveView {
    pub enabled: bool,
    pub length: u16,
    pub volume_shift: u8,
    pub frequency: u16,
    pub length_en: bool,
    pub trigger: bool,
    pub pattern: Seq<u8>,
}

impl View for Wave {
    type V = WaveView;

    open spec fn view(&self) -> WaveView {
        WaveView {
            enabled: self.enabled,
            length: self.length,
            volume_shift: self.volume_shift,
            frequency: self.frequency,
            length_en: self.length_en,
            trigger: self.trigger,
            pattern: self.pattern@,
        }
    }
}

/// Register shadow of the noise channel.
#[derive(Clone, Copy, PartialEq, Eq, Structural, Debug)]
pub struct Noise {
    pub length: u8,
    pub envelope_vol: u8,
    pub envelope_increase: bool,
    pub envelope_sweep: u8,
    pub frequency: u32,
    pub short_pattern: bool,
    pub length_en: bool,
    pub trigger: bool,
}

/// The power-on state of the noise channel.
pub open spec fn noise_default() -> Noise {
    Noise {
        length: 0,
        envelope_vol: 0,
        envelope_increase: false,
        envelope_sweep: 0,
        frequency: 8,
        short_pattern: false,
        length_en: false,
        trigger: false,
    }
}

/// The APU register shadow: everything the guest writes to FF10-FF3F,
/// decoded.  The synthesizer that turns this state into samples runs
/// on the host audio thread; after each write the driver hands it a
/// snapshot of this struct and clears the four trigger flags.
pub struct Sound {
    pub sound_enable: bool,
    pub pulse1: Pulse,
    pub pulse2: Pulse,
    pub wave: Wave,
    pub noise: Noise,
    pub channel_pan: u8,
    pub left_vol: u8,
    pub right_vol: u8,
}

/// The mathematical model of the register shadow.
#[verifier::ext_equal]
pub struct SoundView {
    pub sound_enable: bool,
    pub pulse1: Pulse,
    pub pulse2: Pulse,
    pub wave: WaveView,
    pub noise: Noise,
    pub channel_pan: u8,
    pub left_vol: u8,
    pub right_vol: u8,
}

impl View for Sound {
    type V = SoundView;

    open spec fn view(&self) -> SoundView {
        SoundView {
            sound_enable: self.sound_enable,
            pulse1: self.pulse1,
            pulse2: self.pulse2,
            wave: self.wave@,
            noise: self.noise,
            channel_pan: self.channel_pan,
            left_vol: self.left_vol,
            right_vol: self.right_vol,
        }
    }
}

/// The wave pattern RAM always holds its 32 nibbles.
pub open spec fn sound_wf(v: SoundView) -> bool {
    v.wave.pattern.len() == 32
}

/// The power of two a noise clock-shift (0 to 15) selects.
pub open spec fn pow2_u32(n: u32) -> u32 {
    if n == 0 {
        1
    } else if n == 1 {
        2
    } else if n == 2 {
        4
    } else if n == 3 {
        8
    } else if n == 4 {
        16
    } else if n == 5 {
        32
    } else if n == 6 {
        64
    } else if n == 7 {
        128
    } else if n == 8 {
        256
    } else if n == 9 {
        512
    } else if n == 10 {
        1024
    } else if n == 11 {
        2048
    } else if n == 12 {
        4096
    } else if n == 13 {
        8192
    } else if n == 14 {
        16384
    } else {
        32768
    }
}

/// What a read of an APU register returns: the three registers this
/// unit reflects back, 0 for the rest.
pub open spec fn sound_read_spec(v: SoundView, addr: u16) -> u8 {
    if addr == 0xff10 {
        (0x80 + (v.pulse1.sweep_time % 8) * 16 + (if v.pulse1.negate { 8int } else { 0 })
            + v.pulse1.sweep_shift % 8) as u8
    } else if addr == 0xff12 {
        ((v.pulse1.envelope_vol % 16) * 16 + (if v.pulse1.envelope_increase { 8int } else { 0 })
            + v.pulse1.envelope_sweep % 8) as u8
    } else if addr == 0xff25 {
        v.channel_pan
    } else {
        0
    }
}

/// A square channel after a write to one of its five registers,
/// identified by its offset from the channel base (FF10 or FF15).
pub open spec fn pulse_write_spec(p: Pulse, off: u16, value: u8) -> Pulse {
    if off == 0 {
        Pulse {
            sweep_shift: (value % 8) as u8,
            negate: value / 8 % 2 == 1,
            sweep_time: (value / 16 % 8) as u8,
            ..p
        }
    } else if off == 1 {
        Pulse { duty: (value / 64) as u8, sound_length: (64 - value % 64) as u8, ..p }
    } else if off == 2 {
        Pulse {
            envelope_vol: (value / 16) as u8,
            envelope_increase: value / 8 % 2 == 1,
            envelope_sweep: (value % 8) as u8,
            ..p
        }
    } else if off == 3 {
        Pulse { frequency: (p.frequency - p.frequency % 256 + value) as u16, ..p }
    } else if off == 4 {
        Pulse {
            frequency: (p.frequency % 256 + (value % 8) * 256) as u16,
            trigger: value / 128 % 2 == 1,
            length_en: value / 64 % 2 == 1,
            ..p
        }
    } else {
        p
    }
}

/// The wave channel after a write to FF1A-FF1E or the pattern RAM.
pub open spec fn wave_write_spec(w: WaveView, addr: u16, value: u8) -> WaveView {
    if addr == 0xff1a {
        WaveView { enabled: value / 128 % 2 == 1, ..w }
    } else if addr == 0xff1b {
        WaveView { length: (0x100 - value) as u16, ..w }
    } else if addr == 0xff1c {
        let sel = value / 32 % 4;
        let sh: u8 = if sel == 0 {
            4
        } else if sel == 1 {
            0
        } else if sel == 2 {
            1
        } else {
            2
        };
        WaveView { volume_shift: sh, ..w }
    } else if addr == 0xff1d {
        WaveView { frequency: (w.frequency - w.frequency % 256 + value) as u16, ..w }
    } else if addr == 0xff1e {
        WaveView {
            frequency: (w.frequency % 256 + (value % 8) * 256) as u16,
            trigger: value / 128 % 2 == 1,
            length_en: value / 64 % 2 == 1,
            ..w
        }
    } else if 0xff30 <= addr && addr <= 0xff3f {
        let i = (addr - 0xff30) as int;
        WaveView {
            pattern: w.pattern.update(2 * i, (value / 16) as u8).update(
                2 * i + 1,
                (value % 16) as u8,
            ),
            ..w
        }
    } else {
        w
    }
}

/// The noise channel after a write to FF20-FF23.
pub open spec fn noise_write_spec(n: Noise, addr: u16, value: u8) -> Noise {
    if addr == 0xff20 {
        Noise { length: (64 - value % 64) as u8, ..n }
    } else if addr == 0xff21 {
        Noise {
            envelope_vol: (value / 16) as u8,
            envelope_increase: value / 8 % 2 == 1,
            envelope_sweep: (value % 8) as u8,
            ..n
        }
    } else if addr == 0xff22 {
        let div_code = (value % 8) as u32;
        let base: u32 = if div_code > 0 {
            (div_code * 16) as u32
        } else {
            8
        };
        Noise {
            short_pattern: value / 8 % 2 == 1,
            frequency: (base * pow2_u32((value / 16) as u32)) as u32,
            ..n
        }
    } else if addr == 0xff23 {
        Noise { trigger: value / 128 % 2 == 1, length_en: value / 64 % 2 == 1, ..n }
    } else {
        n
    }
}

/// The register shadow after a write to FF10-FF3F.
pub open spec fn sound_write_spec(v: SoundView, addr: u16, value: u8) -> SoundView {
    if 0xff10 <= addr && addr <= 0xff14 {
        SoundView { pulse1: pulse_write_spec(v.pulse1, (addr - 0xff10) as u16, value), ..v }
    } else if 0xff16 <= addr && addr <= 0xff19 {
        SoundView { pulse2: pulse_write_spec(v.pulse2, (addr - 0xff15) as u16, value), ..v }
    } else if (0xff1a <= addr && addr <= 0xff1e) || (0xff30 <= addr && addr <= 0xff3f) {
        SoundView { wave: wave_write_spec(v.wave, addr, value), ..v }
    } else if 0xff20 <= addr && addr <= 0xff23 {
        SoundView { noise: noise_write_spec(v.noise, addr, value), ..v }
    } else if addr == 0xff24 {
        SoundView { left_vol: (value / 16 % 8) as u8, right_vol: (value % 8) as u8, ..v }
    } else if addr == 0xff25 {
        SoundView { channel_pan: value, ..v }
    } else if addr == 0xff26 {
        SoundView { sound_enable: value / 128 % 2 == 1, ..v }
    } else {
        v
    }
}

/// A write to one square channel's registers, as executable code.
fn pulse_write(p: &mut Pulse, off: u16, value: u8)
    ensures
        *final(p) == pulse_write_spec(*old(p), off, value),
{
    if off == 0 {
        p.sweep_shift = value % 8;
        p.negate = value / 8 % 2 == 1;
        p.sweep_time = value / 16 % 8;
    } else if off == 1 {
        p.duty = value / 64;
        p.sound_length = 64 - value % 64;
    } else if off == 2 {
        p.envelope_vol = value / 16;
        p.envelope_increase = value / 8 % 2 == 1;
        p.envelope_sweep = value % 8;
    } else if off == 3 {
        p.frequency = p.frequency - p.frequency % 256 + value as u16;
    } else if off == 4 {
        p.frequency = p.frequency % 256 + (value as u16 % 8) * 256;
        p.trigger = value / 128 % 2 == 1;
        p.length_en = value / 64 % 2 == 1;
    }
}

impl Sound {
    /// The register shadow at power-on: everything cleared, the noise
    /// divisor at its smallest value.
    pub fn new() -> (r: Sound)
        ensures
            sound_wf(r@),
            !r@.sound_enable,
            r@.pulse1 == pulse_default(),
            r@.pulse2 == pulse_default(),
            r@.noise == noise_default(),
            !r@.wave.trigger && !r@.wave.enabled,
            r@.channel_pan == 0 && r@.left_vol == 0 && r@.right_vol == 0,
            forall|i: int| 0 <= i < 32 ==> r@.wave.pattern[i] == 0,
    {
        let mut pattern: Vec<u8> = Vec::new();
        pattern.resize(32, 0u8);
        Sound {
            sound_enable: false,
            pulse1: Pulse::new(),
            pulse2: Pulse::new(),
            wave: Wave {
                enabled: false,
                length: 0,
                volume_shift: 0,
                frequency: 0,
                length_en: false,
                trigger: false,
                pattern,
            },
            noise: Noise {
                length: 0,
                envelope_vol: 0,
                envelope_increase: false,
                envelope_sweep: 0,
                frequency: 8,
                short_pattern: false,
                length_en: false,
                trigger: false,
            },
            channel_pan: 0,
            left_vol: 0,
            right_vol: 0,
        }
    }

    /// Serve a bus read of FF10-FF3F.
    pub fn read(&self, addr: u16) -> (r: u8)
        requires
            0xff10 <= addr <= 0xff3f,
        ensures
            r == sound_read_spec(self@, addr),
    {
        if addr == 0xff10 {
            0x80 + self.pulse1.sweep_time % 8 * 16 + (if self.pulse1.negate {
                8
            } else {
                0
            }) + self.pulse1.sweep_shift % 8
        } else if addr == 0xff12 {
            self.pulse1.envelope_vol % 16 * 16 + (if self.pulse1.envelope_increase {
                8
            } else {
                0
            }) + self.pulse1.envelope_sweep % 8
        } else if addr == 0xff25 {
            self.channel_pan
        } else {
            0
        }
    }

    /// Serve a bus write to FF10-FF3F.
    pub fn write(&mut self, addr: u16, value: u8)
        requires
            0xff10 <= addr <= 0xff3f,
            sound_wf(old(self)@),
        ensures
            final(self)@ == sound_write_spec(old(self)@, addr, value),
            sound_wf(final(self)@),
    {
        if 0xff10 <= addr && addr <= 0xff14 {
            pulse_write(&mut self.pulse1, addr - 0xff10, value);
        } else if 0xff16 <= addr && addr <= 0xff19 {
            pulse_write(&mut self.pulse2, addr - 0xff15, value);
        } else if addr == 0xff1a {
            self.wave.enabled = value / 128 % 2 == 1;
        } else if addr == 0xff1b {
            self.wave.length = 0x100 - value as u16;
        } else if addr == 0xff1c {
            let sel = value / 32 % 4;
            self.wave.volume_shift = if sel == 0 {
                4
            } else if sel == 1 {
                0
            } else if sel == 2 {
                1
            } else {
                2
            };
        } else if addr == 0xff1d {
            self.wave.frequency = self.wave.frequency - self.wave.frequency % 256 + value as u16;
        } else if addr == 0xff1e {
            self.wave.frequency = self.wave.frequency % 256 + (value as u16 % 8) * 256;
            self.wave.trigger = value / 128 % 2 == 1;
            self.wave.length_en = value / 64 % 2 == 1;
        } else if 0xff30 <= addr && addr <= 0xff3f {
            let i = (addr - 0xff30) as usize;
            self.wave.pattern.set(2 * i, value / 16);
            self.wave.pattern.set(2 * i + 1, value % 16);
        } else if 0xff20 <= addr && addr <= 0xff23 {
            self.write_noise(addr, value);
        } else if addr == 0xff24 {
            self.left_vol = value / 16 % 8;
            self.right_vol = value % 8;
        } else if addr == 0xff25 {
            self.channel_pan = value;
        } else if addr == 0xff26 {
            self.sound_enable = value / 128 % 2 == 1;
        }
        proof {
            assert(self@.wave =~= sound_write_spec(old(self)@, addr, value).wave);
            assert(self@ =~= sound_write_spec(old(self)@, addr, value));
        }
    }

    /// A write to the noise channel's registers.
    fn write_noise(&mut self, addr: u16, value: u8)
        requires
            0xff20 <= addr <= 0xff23,
        ensures
            *final(self) == (Sound { noise: noise_write_spec(old(self).noise, addr, value), ..*old(self) }),
    {
        if addr == 0xff20 {
            self.noise.length = 64 - value % 64;
        } else if addr == 0xff21 {
            self.noise.envelope_vol = value / 16;
            self.noise.envelope_increase = value / 8 % 2 == 1;
            self.noise.envelope_sweep = value % 8;
        } else if addr == 0xff22 {
            let div_code = (value % 8) as u32;
            let base: u32 = if div_code > 0 {
                div_code * 16
            } else {
                8
            };
            let p = pow2_exec(value as u32 / 16);
            proof {
                assert(base * p <= 112 * 0x8000) by (nonlinear_arith)
                    requires
                        base <= 112,
                        0 <= p <= 0x8000,
                        base >= 0,
                ;
            }
            self.noise.short_pattern = value / 8 % 2 == 1;
            self.noise.frequency = base * p;
        } else {
            self.noise.trigger = value / 128 % 2 == 1;
            self.noise.length_en = value / 64 % 2 == 1;
        }
    }

    /// Drop the four trigger edges once the driver has taken its
    /// snapshot, as the hardware's one-shot trigger bits do.
    pub fn clear_triggers(&mut self)
        ensures
            final(self)@ == (SoundView {
                pulse1: Pulse { trigger: false, ..old(self)@.pulse1 },
                pulse2: Pulse { trigger: false, ..old(self)@.pulse2 },
                wave: WaveView { trigger: false, ..old(self)@.wave },
                noise: Noise { trigger: false, ..old(self)@.noise },
                ..old(self)@
            }),
    {
        self.pulse1.trigger = false;
        self.pulse2.trigger = false;
        self.wave.trigger = false;
        self.noise.trigger = false;
        proof {
            assert(self@ =~= (SoundView {
                pulse1: Pulse { trigger: false, ..old(self)@.pulse1 },
                pulse2: Pulse { trigger: false, ..old(self)@.pulse2 },
                wave: WaveView { trigger: false, ..old(self)@.wave },
                noise: Noise { trigger: false, ..old(self)@.noise },
                ..old(self)@
            }));
        }
    }
}

/// The noise clock-shift power of two, as executable code.
fn pow2_exec(n: u32) -> (r: u32)
    ensures
        r == pow2_u32(n),
        r <= 0x8000,
{
    if n == 0 {
        1
    } else if n == 1 {
        2
    } else if n == 2 {
        4
    } else if n == 3 {
        8
    } else if n == 4 {
        16
    } else if n == 5 {
        32
    } else if n == 6 {
        64
    } else if n == 7 {
        128
    } else if n == 8 {
        256
    } else if n == 9 {
        512
    } else if n == 10 {
        1024
    } else if n == 11 {
        2048
    } else if n == 12 {
        4096
    } else if n == 13 {
        8192
    } else if n == 14 {
        16384
    } else {
        32768
    }
}

} // verus!
