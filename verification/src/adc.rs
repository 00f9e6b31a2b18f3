//! Analog-to-digital converter.
//!
//! The conversion-sequence registers pack five-bit channel numbers side
//! by side; that packing and the per-channel sample-time table are
//! verified here.  Calibration, conversion starts and the result reads
//! are performed by the embedding.

use vstd::prelude::*;

use crate::rcc::Clocks;

verus! {

/// Continuous mode
pub struct Continuous;

/// Scan mode
pub struct Scan;

/// ADC sampling time
///
/// Options for the sampling time, each is T + 0.5 ADC clock cycles.
#[derive(Clone, Copy, Debug, PartialEq, Eq, Structural)]
pub enum SampleTime {
    /// 1.5 cycles sampling time
    T_1,
    /// 7.5 cycles sampling time
    T_7,
    /// 13.5 cycles sampling time
    T_13,
    /// 28.5 cycles sampling time
    T_28,
    /// 41.5 cycles sampling time
    T_41,
    /// 55.5 cycles sampling time
    T_55,
    /// 71.5 cycles sampling time
    T_71,
    /// 239.5 cycles sampling time
    T_239,
}

impl Default for SampleTime {
    /// Get the default sample time (currently 28.5 cycles)
    fn default() -> (r: Self)
        ensures
            r == SampleTime::T_28,
    {
        SampleTime::T_28
    }
}

impl SampleTime {
    /// Register encoding of the sample-time field.
    pub open spec fn spec_bits(self) -> u8 {
        match self {
            SampleTime::T_1 => 0,
            SampleTime::T_7 => 1,
            SampleTime::T_13 => 2,
            SampleTime::T_28 => 3,
            SampleTime::T_41 => 4,
            SampleTime::T_55 => 5,
            SampleTime::T_71 => 6,
            SampleTime::T_239 => 7,
        }
    }

    /// Register encoding of the sample-time field.
    #[verifier::when_used_as_spec(spec_bits)]
    pub fn bits(self) -> (r: u8)
        ensures
            r == self.spec_bits(),
    {
        match self {
            SampleTime::T_1 => 0,
            SampleTime::T_7 => 1,
            SampleTime::T_13 => 2,
            SampleTime::T_28 => 3,
            SampleTime::T_41 => 4,
            SampleTime::T_55 => 5,
            SampleTime::T_71 => 6,
            SampleTime::T_239 => 7,
        }
    }
}

/// ADC data register alignment
#[derive(Clone, Copy, Debug, PartialEq, Eq, Structural)]
pub enum Align {
    /// Right alignment of output data
    Right,
    /// Left alignment of output data
    Left,
}

impl Default for Align {
    /// Default: right alignment
    fn default() -> (r: Self)
        ensures
            r == Align::Right,
    {
        Align::Right
    }
}

impl Align {
    /// Value of the `ALIGN` register bit.
    pub open spec fn spec_bit(self) -> bool {
        self == Align::Left
    }

    /// Value of the `ALIGN` register bit.
    #[verifier::when_used_as_spec(spec_bit)]
    pub fn bit(self) -> (r: bool)
        ensures
            r == self.spec_bit(),
    {
        matches!(self, Align::Left)
    }
}

/// Stored ADC config can be restored using the `Adc::restore_cfg` method
#[derive(Copy, Clone, Debug, PartialEq, Eq, Structural)]
pub struct StoredConfig(pub SampleTime, pub Align);

/// Field-level model of the ADC register block.
#[derive(Clone, Copy, Debug, PartialEq, Eq, Structural)]
pub struct AdcRegs {
    /// `ADON`: the converter is powered.
    pub powered: bool,
    /// `CONT`: continuous conversion.
    pub continuous: bool,
    /// `EXTTRIG`: conversion on external trigger enabled.
    pub ext_trig_enabled: bool,
    /// `EXTSEL`: external trigger selection.
    pub ext_sel: u8,
    /// `SCAN`: scan mode.
    pub scan: bool,
    /// `DISCEN`: discontinuous mode.
    pub discontinuous: bool,
    /// `DISCNUM`: discontinuous group length.
    pub disc_count: u8,
    /// `ALIGN`: left-aligned results.
    pub align_left: bool,
    /// `RSQR1`: sequence slots 13..=16.
    pub rsqr1: u32,
    /// `RSQR2`: sequence slots 7..=12.
    pub rsqr2: u32,
    /// `RSQR3`: sequence slots 1..=6.
    pub rsqr3: u32,
    /// `L`: sequence length minus one.
    pub seq_len: u8,
    /// Per-channel sample-time fields.
    pub smp0: u8,
    pub smp1: u8,
    pub smp2: u8,
    pub smp3: u8,
    pub smp4: u8,
    pub smp5: u8,
    pub smp6: u8,
    pub smp7: u8,
    pub smp8: u8,
    pub smp9: u8,
}

impl AdcRegs {
    /// The reset state of the register block.
    pub fn new() -> (r: AdcRegs)
        ensures
            r == (AdcRegs {
                powered: false,
                continuous: false,
                ext_trig_enabled: false,
                ext_sel: 0,
                scan: false,
                discontinuous: false,
                disc_count: 0,
                align_left: false,
                rsqr1: 0,
                rsqr2: 0,
                rsqr3: 0,
                seq_len: 0,
                smp0: 0,
                smp1: 0,
                smp2: 0,
                smp3: 0,
                smp4: 0,
                smp5: 0,
                smp6: 0,
                smp7: 0,
                smp8: 0,
                smp9: 0,
            }),
    {
        AdcRegs {
            powered: false,
            continuous: false,
            ext_trig_enabled: false,
            ext_sel: 0,
            scan: false,
            discontinuous: false,
            disc_count: 0,
            align_left: false,
            rsqr1: 0,
            rsqr2: 0,
            rsqr3: 0,
            seq_len: 0,
            smp0: 0,
            smp1: 0,
            smp2: 0,
            smp3: 0,
            smp4: 0,
            smp5: 0,
            smp6: 0,
            smp7: 0,
            smp8: 0,
            smp9: 0,
        }
    }
}

/// Channel numbers packed side by side in five-bit slots, first channel in
/// the lowest bits.
pub open spec fn spec_seq_word(s: Seq<u8>) -> u32
    decreases s.len(),
{
    if s.len() == 0 {
        0u32
    } else {
        spec_seq_word(s.drop_last()) | ((s.last() as u32) << (5 * ((s.len() - 1) as u32)))
    }
}

/// Pack `count` channel numbers starting at `start` into five-bit slots.
fn pack_seq_word(channels: &[u8], start: usize, count: usize) -> (r: u32)
    requires
        start + count <= channels@.len(),
        count <= 6,
    ensures
        r == spec_seq_word(channels@.subrange(start as int, (start + count) as int)),
{
    let total: usize = channels.len();
    let mut bits: u32 = 0;
    let mut i: usize = 0;
    while i < count
        invariant
            i <= count,
            count <= 6,
            start + count <= total,
            total == channels@.len(),
            bits == spec_seq_word(channels@.subrange(start as int, (start + i) as int)),
        decreases count - i,
    {
        let c: u8 = channels[start + i];
        proof {
            let s1 = channels@.subrange(start as int, (start + i + 1) as int);
            let s0 = channels@.subrange(start as int, (start + i) as int);
            assert(s1.drop_last() =~= s0);
            assert(s1.last() == channels@[(start + i) as int]);
        }
        bits = bits | ((c as u32) << ((i as u32) * 5));
        i = i + 1;
    }
    bits
}

/// ADC configuration: the register model, the selected sample time and
/// alignment, and the frozen clocks the timing was derived from.
pub struct Adc<'a> {
    pub rb: AdcRegs,
    pub sample_time: SampleTime,
    pub align: Align,
    pub clocks: &'a Clocks,
}

impl<'a> Adc<'a> {
    /// Take the converter with one-shot defaults: no scan, discontinuous
    /// single conversion on software trigger, powered up.  The boot-time
    /// calibration is performed by the embedding.
    pub fn new(adc: AdcRegs, clocks: &'a Clocks) -> (r: Self)
        ensures
            r.sample_time == SampleTime::T_28,
            r.align == Align::Right,
            !r.rb.continuous,
            r.rb.ext_trig_enabled,
            r.rb.ext_sel == 7,
            !r.rb.scan,
            r.rb.discontinuous,
            r.rb.seq_len == 0,
            r.rb.powered,
    {
        let mut s = Self {
            rb: adc,
            sample_time: SampleTime::T_28,
            align: Align::Right,
            clocks,
        };
        s.setup_oneshot();
        s.rb.powered = true;
        s
    }

    /// Save current ADC config
    pub fn save_cfg(&mut self) -> (r: StoredConfig)
        ensures
            r == StoredConfig(old(self).sample_time, old(self).align),
            *final(self) == *old(self),
    {
        StoredConfig(self.sample_time, self.align)
    }

    /// Restore saved ADC config
    pub fn restore_cfg(&mut self, cfg: StoredConfig)
        ensures
            final(self).sample_time == cfg.0,
            final(self).align == cfg.1,
            final(self).rb == old(self).rb,
    {
        self.sample_time = cfg.0;
        self.align = cfg.1;
    }

    /// Reset the ADC config to default, return existing config
    pub fn default_cfg(&mut self) -> (r: StoredConfig)
        ensures
            r == StoredConfig(old(self).sample_time, old(self).align),
            final(self).sample_time == SampleTime::T_28,
            final(self).align == Align::Right,
            final(self).rb == old(self).rb,
    {
        let cfg = self.save_cfg();
        self.sample_time = SampleTime::T_28;
        self.align = Align::Right;
        cfg
    }

    /// Set ADC sampling time
    ///
    /// Options can be found in [SampleTime](crate::adc::SampleTime).
    pub fn set_sample_time(&mut self, t_samp: SampleTime)
        ensures
            final(self).sample_time == t_samp,
            final(self).align == old(self).align,
            final(self).rb == old(self).rb,
    {
        self.sample_time = t_samp;
    }

    /// Set the Adc result alignment
    ///
    /// Options can be found in [Align](crate::adc::Align).
    pub fn set_align(&mut self, align: Align)
        ensures
            final(self).align == align,
            final(self).sample_time == old(self).sample_time,
            final(self).rb == old(self).rb,
    {
        self.align = align;
    }

    /// Returns the largest possible sample value for the current settings
    pub fn max_sample(&self) -> (r: u16)
        ensures
            r == (if self.align == Align::Left {
                0xFFFFu16
            } else {
                1023u16
            }),
    {
        match self.align {
            Align::Left => 0xFFFF,
            Align::Right => 1023,
        }
    }

    /// Select the external trigger source.
    pub fn set_external_trigger(&mut self, trigger: u8)
        ensures
            final(self).rb == (AdcRegs { ext_sel: trigger, ..old(self).rb }),
            final(self).sample_time == old(self).sample_time,
            final(self).align == old(self).align,
    {
        self.rb.ext_sel = trigger;
    }

    /// One-shot defaults: no continuous conversion, software-started
    /// trigger, no scan, discontinuous mode, a single sequence slot.
    fn setup_oneshot(&mut self)
        ensures
            final(self).rb == (AdcRegs {
                continuous: false,
                ext_trig_enabled: true,
                ext_sel: 7,
                scan: false,
                discontinuous: true,
                seq_len: 0,
                ..old(self).rb
            }),
            final(self).sample_time == old(self).sample_time,
            final(self).align == old(self).align,
    {
        self.rb.continuous = false;
        self.rb.ext_trig_enabled = true;
        self.rb.ext_sel = 7;
        self.rb.scan = false;
        self.rb.discontinuous = true;
        self.rb.seq_len = 0;
    }

    /// Set the sample time of one channel.  Channels above nine do not
    /// exist on this converter.
    pub fn set_channel_sample_time(&mut self, chan: u8, sample_time: SampleTime)
        requires
            chan <= 9,
        ensures
            final(self).sample_time == old(self).sample_time,
            final(self).align == old(self).align,
            final(self).rb == (match chan {
                0 => AdcRegs { smp0: sample_time.spec_bits(), ..old(self).rb },
                1 => AdcRegs { smp1: sample_time.spec_bits(), ..old(self).rb },
                2 => AdcRegs { smp2: sample_time.spec_bits(), ..old(self).rb },
                3 => AdcRegs { smp3: sample_time.spec_bits(), ..old(self).rb },
                4 => AdcRegs { smp4: sample_time.spec_bits(), ..old(self).rb },
                5 => AdcRegs { smp5: sample_time.spec_bits(), ..old(self).rb },
                6 => AdcRegs { smp6: sample_time.spec_bits(), ..old(self).rb },
                7 => AdcRegs { smp7: sample_time.spec_bits(), ..old(self).rb },
                8 => AdcRegs { smp8: sample_time.spec_bits(), ..old(self).rb },
                _ => AdcRegs { smp9: sample_time.spec_bits(), ..old(self).rb },
            }),
    {
        let bits = sample_time.bits();
        match chan {
            0 => self.rb.smp0 = bits,
            1 => self.rb.smp1 = bits,
            2 => self.rb.smp2 = bits,
            3 => self.rb.smp3 = bits,
            4 => self.rb.smp4 = bits,
            5 => self.rb.smp5 = bits,
            6 => self.rb.smp6 = bits,
            7 => self.rb.smp7 = bits,
            8 => self.rb.smp8 = bits,
            _ => self.rb.smp9 = bits,
        }
    }

    /// ADC Set a Regular Channel Conversion Sequence
    ///
    /// Define a sequence of channels to be converted as a regular group:
    /// the first six slots in `RSQR3`, the next six in `RSQR2`, the last
    /// four in `RSQR1`, and the length field set to one less than the
    /// number of channels.
    pub fn set_regular_sequence(&mut self, channels: &[u8])
        requires
            1 <= channels@.len() <= 16,
        ensures
            final(self).sample_time == old(self).sample_time,
            final(self).align == old(self).align,
            final(self).rb.rsqr3 == spec_seq_word(
                channels@.subrange(0, if channels@.len() < 6 {
                    channels@.len() as int
                } else {
                    6
                }),
            ),
            channels@.len() > 6 ==> final(self).rb.rsqr2 == spec_seq_word(
                channels@.subrange(6, if channels@.len() < 12 {
                    channels@.len() as int
                } else {
                    12
                }),
            ),
            channels@.len() <= 6 ==> final(self).rb.rsqr2 == old(self).rb.rsqr2,
            channels@.len() > 12 ==> final(self).rb.rsqr1 == spec_seq_word(
                channels@.subrange(12, channels@.len() as int),
            ),
            channels@.len() <= 12 ==> final(self).rb.rsqr1 == old(self).rb.rsqr1,
            final(self).rb.seq_len == channels@.len() - 1,
    {
        let len = channels.len();
        let first = if len < 6 {
            len
        } else {
            6
        };
        self.rb.rsqr3 = pack_seq_word(channels, 0, first);
        if len > 6 {
            let second = if len < 12 {
                len - 6
            } else {
                6
            };
            self.rb.rsqr2 = pack_seq_word(channels, 6, second);
        }
        if len > 12 {
            self.rb.rsqr1 = pack_seq_word(channels, 12, len - 12);
        }
        self.rb.seq_len = (len - 1) as u8;
    }

    /// Set ADC continuous conversion
    ///
    /// When continuous conversion is enabled conversion does not stop at
    /// the last selected group channel but continues again from the first
    /// selected group channel.
    pub fn set_continuous_mode(&mut self, continuous: bool)
        ensures
            final(self).rb == (AdcRegs { continuous, ..old(self).rb }),
            final(self).sample_time == old(self).sample_time,
            final(self).align == old(self).align,
    {
        self.rb.continuous = continuous;
    }

    /// Set ADC discontinuous mode
    ///
    /// It can be used to convert a short sequence of conversions (up to 8)
    /// which is a part of the regular sequence of conversions.
    pub fn set_discontinuous_mode(&mut self, channels_count: Option<u8>)
        ensures
            final(self).rb == (match channels_count {
                Some(count) => AdcRegs {
                    discontinuous: true,
                    disc_count: count,
                    ..old(self).rb
                },
                None => AdcRegs { discontinuous: false, ..old(self).rb },
            }),
            final(self).sample_time == old(self).sample_time,
            final(self).align == old(self).align,
    {
        match channels_count {
            Some(count) => {
                self.rb.discontinuous = true;
                self.rb.disc_count = count;
            },
            None => {
                self.rb.discontinuous = false;
            },
        }
    }

    /// Powers down the ADC and releases its register model.
    pub fn release(self) -> (r: AdcRegs)
        ensures
            r == (AdcRegs { powered: false, ..self.rb }),
    {
        let mut rb = self.rb;
        rb.powered = false;
        rb
    }
}

/// Sequence and timing control shared by conversion drivers.
pub trait ChannelTimeSequence {
    /// Set ADC sampling time for particular channel
    fn set_channel_sample_time(&mut self, chan: u8, sample_time: SampleTime)
        requires
            chan <= 9,
    ;

    /// ADC Set a Regular Channel Conversion Sequence
    ///
    /// Define a sequence of channels to be converted as a regular group.
    fn set_regular_sequence(&mut self, channels: &[u8])
        requires
            1 <= channels@.len() <= 16,
    ;

    /// Set ADC continuous conversion
    fn set_continuous_mode(&mut self, continuous: bool);

    /// Set ADC discontinuous mode
    fn set_discontinuous_mode(&mut self, channels_count: Option<u8>);
}

impl<'a> ChannelTimeSequence for Adc<'a> {
    fn set_channel_sample_time(&mut self, chan: u8, sample_time: SampleTime) {
        self.set_channel_sample_time(chan, sample_time);
    }

    fn set_regular_sequence(&mut self, channels: &[u8]) {
        self.set_regular_sequence(channels);
    }

    fn set_continuous_mode(&mut self, continuous: bool) {
        self.set_continuous_mode(continuous);
    }

    fn set_discontinuous_mode(&mut self, channels: Option<u8>) {
        self.set_discontinuous_mode(channels);
    }
}

} // verus!
