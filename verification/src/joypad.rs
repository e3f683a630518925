use vstd::prelude::*;

verus! {

/// The eight Game Boy buttons.
#[derive(Clone, Copy, PartialEq, Eq, Structural, Debug)]
pub enum GBKey {
    Up,
    Down,
    Left,
    Right,
    A,
    B,
    Start,
    Select,
}

/// A button-state edge delivered by the host.
#[derive(Clone, Copy, PartialEq, Eq, Structural, Debug)]
pub enum Message {
    KeyUp(GBKey),
    KeyDown(GBKey),
}

/// Pressed/released state of one button.
#[derive(Clone, Copy, PartialEq, Eq, Structural, Debug)]
pub enum KeyState {
    Pressed,
    Released,
}

impl KeyState {
    /// The active-low bit the joypad register reports for this state.
    pub fn to_bit(&self) -> (r: u8)
        ensures
            r == bit_of(*self),
    {
        match self {
            KeyState::Pressed => 0,
            KeyState::Released => 1,
        }
    }
}

/// The joypad latch behind FF00: eight button states and the two
/// low-active row selections written by the guest (bit 4 selects the
/// directions row, bit 5 the actions row).
#[derive(Clone, Copy, PartialEq, Eq, Structural, Debug)]
pub struct Joypad {
    pub key_a: KeyState,
    pub key_b: KeyState,
    pub key_st: KeyState,
    pub key_se: KeyState,
    pub key_up: KeyState,
    pub key_dw: KeyState,
    pub key_le: KeyState,
    pub key_ri: KeyState,
    pub show_directions: bool,
    pub show_actions: bool,
}

/// The state this latch holds for one button.
pub open spec fn key_of(j: Joypad, k: GBKey) -> KeyState {
    match k {
        GBKey::A => j.key_a,
        GBKey::B => j.key_b,
        GBKey::Start => j.key_st,
        GBKey::Select => j.key_se,
        GBKey::Up => j.key_up,
        GBKey::Down => j.key_dw,
        GBKey::Left => j.key_le,
        GBKey::Right => j.key_ri,
    }
}

/// The joypad latch after one button changes state.
pub open spec fn with_key(j: Joypad, k: GBKey, s: KeyState) -> Joypad {
    match k {
        GBKey::A => Joypad { key_a: s, ..j },
        GBKey::B => Joypad { key_b: s, ..j },
        GBKey::Start => Joypad { key_st: s, ..j },
        GBKey::Select => Joypad { key_se: s, ..j },
        GBKey::Up => Joypad { key_up: s, ..j },
        GBKey::Down => Joypad { key_dw: s, ..j },
        GBKey::Left => Joypad { key_le: s, ..j },
        GBKey::Right => Joypad { key_ri: s, ..j },
    }
}

/// The active-low bit of one key state.
pub open spec fn bit_of(s: KeyState) -> u8 {
    if s is Pressed { 0 } else { 1 }
}

/// The active-low directions nibble.
pub open spec fn dir_nibble(j: Joypad) -> u8 {
    (bit_of(j.key_dw) * 8 + bit_of(j.key_up) * 4 + bit_of(j.key_le) * 2 + bit_of(j.key_ri)) as u8
}

/// The active-low actions nibble.
pub open spec fn act_nibble(j: Joypad) -> u8 {
    (bit_of(j.key_st) * 8 + bit_of(j.key_se) * 4 + bit_of(j.key_b) * 2 + bit_of(j.key_a)) as u8
}

/// What a read of FF00 returns: bits 4 and 5 echo the stored row
/// selections (set when the row is deselected), and the low nibble is
/// the AND of every selected row's active-low bits - 0xF when no row
/// is selected, both rows combined when both are.
pub open spec fn joypad_read_spec(j: Joypad) -> u8 {
    let hi: int = (if j.show_directions { 0int } else { 0x10 }) + (if j.show_actions {
        0int
    } else {
        0x20
    });
    let lo: u8 = (if j.show_directions {
        dir_nibble(j)
    } else {
        0xf
    }) & (if j.show_actions {
        act_nibble(j)
    } else {
        0xf
    });
    (hi + lo) as u8
}

impl Joypad {
    /// A joypad with every button released and the action row selected.
    pub fn new() -> (r: Joypad)
        ensures
            forall|k: GBKey| key_of(r, k) == KeyState::Released,
            !r.show_directions,
            !r.show_actions,
    {
        Joypad {
            key_a: KeyState::Released,
            key_b: KeyState::Released,
            key_st: KeyState::Released,
            key_se: KeyState::Released,
            key_up: KeyState::Released,
            key_dw: KeyState::Released,
            key_le: KeyState::Released,
            key_ri: KeyState::Released,
            show_directions: false,
            show_actions: false,
        }
    }

    /// Apply one host edge.  Returns true exactly on a released-to-
    /// pressed edge, which requests the joypad interrupt.
    pub fn update(&mut self, msg: Message) -> (irq: bool)
        ensures
            match msg {
                Message::KeyDown(k) => *final(self) == with_key(*old(self), k, KeyState::Pressed)
                    && (irq <==> key_of(*old(self), k) == KeyState::Released),
                Message::KeyUp(k) => *final(self) == with_key(*old(self), k, KeyState::Released)
                    && !irq,
            },
    {
        match msg {
            Message::KeyDown(k) => {
                let prev = self.get_key_state(k);
                self.set_key_state(k, KeyState::Pressed);
                prev == KeyState::Released
            },
            Message::KeyUp(k) => {
                self.set_key_state(k, KeyState::Released);
                false
            },
        }
    }

    /// A write to FF00 stores the two row selections: the directions
    /// row is selected while bit 4 of the written value is clear, the
    /// actions row while bit 5 is clear.
    pub fn write(&mut self, val: u8)
        ensures
            *final(self) == (Joypad {
                show_directions: val / 16 % 2 == 0,
                show_actions: val / 32 % 2 == 0,
                ..*old(self)
            }),
    {
        self.show_directions = val / 16 % 2 == 0;
        self.show_actions = val / 32 % 2 == 0;
    }

    /// A read of FF00 reports the selected rows, 0 meaning pressed.
    pub fn read(&self) -> (r: u8)
        ensures
            r == joypad_read_spec(*self),
    {
        let hi: u8 = (if self.show_directions {
            0
        } else {
            0x10
        }) + (if self.show_actions {
            0
        } else {
            0x20
        });
        let dirs: u8 = self.key_dw.to_bit() * 8 + self.key_up.to_bit() * 4 + self.key_le.to_bit()
            * 2 + self.key_ri.to_bit();
        let acts: u8 = self.key_st.to_bit() * 8 + self.key_se.to_bit() * 4 + self.key_b.to_bit()
            * 2 + self.key_a.to_bit();
        let lo: u8 = (if self.show_directions {
            dirs
        } else {
            0xf
        }) & (if self.show_actions {
            acts
        } else {
            0xf
        });
        proof {
            let x: u8 = if self.show_directions {
                dirs
            } else {
                0xf
            };
            let y: u8 = if self.show_actions {
                acts
            } else {
                0xf
            };
            assert(lo == (x & y));
            assert(x & y <= 0xf) by (bit_vector)
                requires
                    x <= 0xf,
                    y <= 0xf,
            ;
        }
        hi + lo
    }

    /// Overwrite the state of one button.
    pub fn set_key_state(&mut self, key: GBKey, status: KeyState)
        ensures
            *final(self) == with_key(*old(self), key, status),
    {
        match key {
            GBKey::A => self.key_a = status,
            GBKey::B => self.key_b = status,
            GBKey::Start => self.key_st = status,
            GBKey::Select => self.key_se = status,
            GBKey::Up => self.key_up = status,
            GBKey::Down => self.key_dw = status,
            GBKey::Left => self.key_le = status,
            GBKey::Right => self.key_ri = status,
        }
    }

    /// The state of one button.
    pub fn get_key_state(&self, key: GBKey) -> (r: KeyState)
        ensures
            r == key_of(*self, key),
    {
        match key {
            GBKey::A => self.key_a,
            GBKey::B => self.key_b,
            GBKey::Start => self.key_st,
            GBKey::Select => self.key_se,
            GBKey::Up => self.key_up,
            GBKey::Down => self.key_dw,
            GBKey::Left => self.key_le,
            GBKey::Right => self.key_ri,
        }
    }
}

} // verus!
