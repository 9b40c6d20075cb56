//! Sound controller: per-voice generator parameters and the two mixing
//! channels, driven through byte writes in the sound register window
//! `0xFF10..=0xFF3F`.
//!
//! Every field is plain data, so the executable state itself serves as the
//! specification-level model: [`apu_write_spec`] is the state transformer the
//! verified [`Apu::write_byte`] is proved to implement.

use vstd::prelude::*;

use crate::fault::Fault;

verus! {

/// Pulse-A length/duty register.
pub const REG_PULSE_A_LEN: u16 = 0xFF11;
/// Pulse-A envelope register.
pub const REG_PULSE_A_ENV: u16 = 0xFF12;
/// Mixing-channel control register (VIN enable and volume per channel).
pub const REG_CHANNEL_CTRL: u16 = 0xFF24;
/// Voice-routing register (one 4-bit voice mask per mixing channel).
pub const REG_VOICE_ROUTE: u16 = 0xFF25;
/// Master-enable register (top bit).
pub const REG_MASTER_ENABLE: u16 = 0xFF26;

/// First address of the sound register window.
pub const SOUND_BASE: u16 = 0xFF10;
/// Last address of the sound register window.
pub const SOUND_LAST: u16 = 0xFF3F;

/// The sound register window owned by the sound controller.
pub open spec fn in_sound_regs(addr: u16) -> bool {
    SOUND_BASE <= addr <= SOUND_LAST
}

/// The registers in the sound window that accept writes.
pub open spec fn sound_reg_supported(addr: u16) -> bool {
    addr == REG_PULSE_A_LEN || addr == REG_PULSE_A_ENV || addr == REG_CHANNEL_CTRL || addr
        == REG_VOICE_ROUTE || addr == REG_MASTER_ENABLE
}

/// Duty cycle selector of a pulse voice.
#[derive(Clone, Copy, Debug, PartialEq, Eq, Structural)]
pub enum WaveDuty {
    HalfQuarter,
    Quarter,
    Half,
    ThreeQuarters,
}

/// Envelope direction: bit 3 of the envelope register.
#[derive(Clone, Copy, Debug, PartialEq, Eq, Structural)]
pub enum Direction {
    Increasing,
    Decreasing,
}

/// Volume envelope of a pulse voice.  The starting volume is not stored from
/// the envelope register: it defaults to zero and persists across register
/// writes.
#[derive(Clone, Copy, Debug, PartialEq, Eq, Structural)]
pub struct Envelope {
    pub volume: u8,
    pub direction: Direction,
    pub count: u8,
}

impl Envelope {
    pub fn new() -> (r: Self)
        ensures
            r == (Envelope { volume: 0, direction: Direction::Increasing, count: 0 }),
    {
        Envelope { volume: 0, direction: Direction::Increasing, count: 0 }
    }
}

/// Generator parameters of pulse voice A.
#[derive(Clone, Copy, Debug, PartialEq, Eq, Structural)]
pub struct PulseA {
    pub wave_duty: WaveDuty,
    pub sound_length: u8,
    pub envelope: Envelope,
}

impl PulseA {
    pub fn new() -> (r: Self)
        ensures
            r == (PulseA {
                wave_duty: WaveDuty::Half,
                sound_length: 0,
                envelope: Envelope { volume: 0, direction: Direction::Increasing, count: 0 },
            }),
    {
        PulseA { wave_duty: WaveDuty::Half, sound_length: 0, envelope: Envelope::new() }
    }
}

/// Generator parameters of pulse voice B.  The current register set drives
/// only voice A; voice B keeps its power-on parameters.
#[derive(Clone, Copy, Debug, PartialEq, Eq, Structural)]
pub struct PulseB {
    pub wave_duty: WaveDuty,
    pub sound_length: u8,
    pub envelope: Envelope,
}

impl PulseB {
    pub fn new() -> (r: Self)
        ensures
            r == (PulseB {
                wave_duty: WaveDuty::Half,
                sound_length: 0,
                envelope: Envelope { volume: 0, direction: Direction::Increasing, count: 0 },
            }),
    {
        PulseB { wave_duty: WaveDuty::Half, sound_length: 0, envelope: Envelope::new() }
    }
}

/// A 4-bit mask selecting which voices feed a mixing channel.
#[derive(Clone, Copy, Debug, PartialEq, Eq, Structural)]
pub struct Voices {
    pub bits: u8,
}

impl Voices {
    /// The low four bits of `value`, one per voice.
    pub open spec fn spec_from_bits(value: u8) -> Voices {
        Voices { bits: value & 0x0F }
    }

    pub fn from_bits(value: u8) -> (r: Voices)
        ensures
            r == Voices::spec_from_bits(value),
    {
        Voices { bits: value & 0x0F }
    }

    pub open spec fn spec_pulse_a(self) -> bool {
        self.bits & 0x01 != 0
    }

    pub open spec fn spec_pulse_b(self) -> bool {
        self.bits & 0x02 != 0
    }

    pub open spec fn spec_wave(self) -> bool {
        self.bits & 0x04 != 0
    }

    pub open spec fn spec_noise(self) -> bool {
        self.bits & 0x08 != 0
    }

    pub fn pulse_a(&self) -> (r: bool)
        ensures
            r == self.spec_pulse_a(),
    {
        self.bits & 0x01 != 0
    }

    pub fn pulse_b(&self) -> (r: bool)
        ensures
            r == self.spec_pulse_b(),
    {
        self.bits & 0x02 != 0
    }

    pub fn wave(&self) -> (r: bool)
        ensures
            r == self.spec_wave(),
    {
        self.bits & 0x04 != 0
    }

    pub fn noise(&self) -> (r: bool)
        ensures
            r == self.spec_noise(),
    {
        self.bits & 0x08 != 0
    }
}

/// One mixing channel: output volume, VIN input flag, and the mask of voices
/// routed into it.
#[derive(Clone, Copy, Debug, PartialEq, Eq, Structural)]
pub struct Channel {
    pub vin: bool,
    pub volume: u8,
    pub voices: Voices,
}

impl Channel {
    pub fn new() -> (r: Self)
        ensures
            r == (Channel { vin: false, volume: 0, voices: Voices { bits: 0 } }),
    {
        Channel { vin: false, volume: 0, voices: Voices { bits: 0 } }
    }
}

/// The sound controller.
#[derive(Clone, Copy, Debug, PartialEq, Eq, Structural)]
pub struct Apu {
    pub enabled: bool,
    pub channel_1: Channel,
    pub channel_2: Channel,
    pub pulse_a: PulseA,
    pub pulse_b: PulseB,
}

/// Duty selector decoded from the top two bits of the length/duty register.
pub open spec fn duty_of(sel: u8) -> WaveDuty {
    if sel == 0 {
        WaveDuty::HalfQuarter
    } else if sel == 1 {
        WaveDuty::Quarter
    } else if sel == 2 {
        WaveDuty::Half
    } else {
        WaveDuty::ThreeQuarters
    }
}

/// What a byte write at `addr` in the sound window does to the controller.
///
/// - length/duty: sound length becomes `64 - (value & 0x3F)`, duty the top
///   two bits; the envelope persists.
/// - envelope: step count from bits 0..=2, direction from bit 3; the stored
///   starting volume persists.
/// - channel control: channel 1 from the low nibble (volume bits 0..=2, VIN
///   bit 3), channel 2 from the high nibble (volume bits 4..=6, VIN bit 7).
/// - voice routing: channel 1 mask from the low nibble, channel 2 mask from
///   the high nibble.
/// - master enable: the top bit.
///
/// Any other register in the window is unsupported and faults, leaving the
/// state unchanged.
pub open spec fn apu_write_spec(a: Apu, addr: u16, value: u8) -> Result<Apu, Fault> {
    if addr == REG_PULSE_A_LEN {
        Ok(Apu {
            pulse_a: PulseA {
                sound_length: (64 - (value & 0x3F)) as u8,
                wave_duty: duty_of(value >> 6),
                envelope: a.pulse_a.envelope,
            },
            ..a
        })
    } else if addr == REG_PULSE_A_ENV {
        Ok(Apu {
            pulse_a: PulseA {
                envelope: Envelope {
                    count: value & 0x07,
                    direction: if value & 0x08 == 0 {
                        Direction::Decreasing
                    } else {
                        Direction::Increasing
                    },
                    volume: a.pulse_a.envelope.volume,
                },
                ..a.pulse_a
            },
            ..a
        })
    } else if addr == REG_CHANNEL_CTRL {
        Ok(Apu {
            channel_1: Channel {
                vin: value & 0x08 != 0,
                volume: value & 0x07,
                voices: a.channel_1.voices,
            },
            channel_2: Channel {
                vin: value & 0x80 != 0,
                volume: (value >> 4) & 0x07,
                voices: a.channel_2.voices,
            },
            ..a
        })
    } else if addr == REG_VOICE_ROUTE {
        Ok(Apu {
            channel_1: Channel { voices: Voices::spec_from_bits(value), ..a.channel_1 },
            channel_2: Channel { voices: Voices::spec_from_bits(value >> 4), ..a.channel_2 },
            ..a
        })
    } else if addr == REG_MASTER_ENABLE {
        Ok(Apu { enabled: value >> 7 == 1, ..a })
    } else {
        Err(Fault::ProtocolViolation { addr })
    }
}

/// The sound controller's power-on state: everything disabled and zeroed.
pub open spec fn power_on_apu() -> Apu {
    Apu {
        enabled: false,
        channel_1: Channel { vin: false, volume: 0, voices: Voices { bits: 0 } },
        channel_2: Channel { vin: false, volume: 0, voices: Voices { bits: 0 } },
        pulse_a: PulseA {
            wave_duty: WaveDuty::Half,
            sound_length: 0,
            envelope: Envelope { volume: 0, direction: Direction::Increasing, count: 0 },
        },
        pulse_b: PulseB {
            wave_duty: WaveDuty::Half,
            sound_length: 0,
            envelope: Envelope { volume: 0, direction: Direction::Increasing, count: 0 },
        },
    }
}

impl Apu {
    /// Power-on state, per [`power_on_apu`].
    pub fn new() -> (r: Self)
        ensures
            r == power_on_apu(),
    {
        Apu {
            enabled: false,
            channel_1: Channel::new(),
            channel_2: Channel::new(),
            pulse_a: PulseA::new(),
            pulse_b: PulseB::new(),
        }
    }

    /// Decode one register write, per [`apu_write_spec`].
    pub fn write_byte(&mut self, addr: u16, value: u8) -> (r: Result<(), Fault>)
        ensures
            match apu_write_spec(*old(self), addr, value) {
                Ok(a) => r is Ok && *final(self) == a,
                Err(f) => r == Err::<(), Fault>(f) && *final(self) == *old(self),
            },
    {
        if addr == REG_PULSE_A_LEN {
            let low = value & 0x3F;
            proof {
                assert(value & 0x3F < 64) by (bit_vector);
            }
            self.pulse_a.sound_length = 64 - low;
            let sel = value >> 6;
            self.pulse_a.wave_duty = if sel == 0 {
                WaveDuty::HalfQuarter
            } else if sel == 1 {
                WaveDuty::Quarter
            } else if sel == 2 {
                WaveDuty::Half
            } else {
                WaveDuty::ThreeQuarters
            };
            Ok(())
        } else if addr == REG_PULSE_A_ENV {
            self.pulse_a.envelope.count = value & 0x07;
            self.pulse_a.envelope.direction = if value & 0x08 == 0 {
                Direction::Decreasing
            } else {
                Direction::Increasing
            };
            Ok(())
        } else if addr == REG_CHANNEL_CTRL {
            self.channel_1.vin = value & 0x08 != 0;
            self.channel_2.vin = value & 0x80 != 0;
            self.channel_1.volume = value & 0x07;
            self.channel_2.volume = (value >> 4) & 0x07;
            Ok(())
        } else if addr == REG_VOICE_ROUTE {
            self.channel_1.voices = Voices::from_bits(value);
            self.channel_2.voices = Voices::from_bits(value >> 4);
            Ok(())
        } else if addr == REG_MASTER_ENABLE {
            self.enabled = value >> 7 == 1;
            Ok(())
        } else {
            Err(Fault::ProtocolViolation { addr })
        }
    }
}

} // verus!
