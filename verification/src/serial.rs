//! Universal Synchronous Asynchronous Receiver Transmitter (USART)
//!
//! The USART register block is modelled field by field; the constructor
//! computes the fractional baud-rate divider from the peripheral-bus
//! frequency and the requested configuration, and the embedding writes the
//! resulting values to the hardware.

use vstd::prelude::*;

use crate::afio::Afio;
use crate::rcc::enable::{AFIO, USART1};
use crate::rcc::{Clocks, Enable, Rcc, Reset};

verus! {

/// Field-level model of the USART register block.
#[derive(Clone, Copy, Debug, PartialEq, Eq, Structural)]
pub struct UsartRegs {
    /// `UE`: the peripheral is running.
    pub enabled: bool,
    /// `TE`: transmitter enabled.
    pub tx_enabled: bool,
    /// `RE`: receiver enabled.
    pub rx_enabled: bool,
    /// `CLKEN`: synchronous clock output enabled.
    pub clk_enabled: bool,
    /// `CTSE`: clear-to-send flow control enabled.
    pub cts_enabled: bool,
    /// `RTSE`: request-to-send flow control enabled.
    pub rts_enabled: bool,
    /// `M`: nine data bits instead of eight.
    pub nine_bits: bool,
    /// `PCE`: parity generation and checking enabled.
    pub parity_control: bool,
    /// `PS`: odd parity (when parity is enabled).
    pub parity_odd: bool,
    /// `STOP`: encoded stop-bit selection.
    pub stop: u8,
    /// `DIV_Mantissa`: whole part of the baud-rate divider.
    pub brr_mantissa: u32,
    /// `DIV_Fraction`: the remaining hundredths of the baud-rate
    /// divider.
    pub brr_fraction: u32,
}

impl UsartRegs {
    /// The reset state of the register block.
    pub fn new() -> (r: UsartRegs)
        ensures
            r == (UsartRegs {
                enabled: false,
                tx_enabled: false,
                rx_enabled: false,
                clk_enabled: false,
                cts_enabled: false,
                rts_enabled: false,
                nine_bits: false,
                parity_control: false,
                parity_odd: false,
                stop: 0,
                brr_mantissa: 0,
                brr_fraction: 0,
            }),
    {
        UsartRegs {
            enabled: false,
            tx_enabled: false,
            rx_enabled: false,
            clk_enabled: false,
            cts_enabled: false,
            rts_enabled: false,
            nine_bits: false,
            parity_control: false,
            parity_odd: false,
            stop: 0,
            brr_mantissa: 0,
            brr_fraction: 0,
        }
    }
}

/// A pin that can carry the synchronous clock for a remap setting.
pub trait Ck<const REMAP: u8> {
    /// Whether this pin choice actually connects the line.
    spec fn spec_connected() -> bool;

    /// Reflect the line's presence in the control registers.
    fn enable(usart: &mut UsartRegs)
        ensures
            final(usart).clk_enabled == Self::spec_connected(),
            final(usart).enabled == old(usart).enabled,
            final(usart).tx_enabled == old(usart).tx_enabled,
            final(usart).rx_enabled == old(usart).rx_enabled,
            final(usart).cts_enabled == old(usart).cts_enabled,
            final(usart).rts_enabled == old(usart).rts_enabled,
            final(usart).nine_bits == old(usart).nine_bits,
            final(usart).parity_control == old(usart).parity_control,
            final(usart).parity_odd == old(usart).parity_odd,
            final(usart).stop == old(usart).stop,
            final(usart).brr_mantissa == old(usart).brr_mantissa,
            final(usart).brr_fraction == old(usart).brr_fraction,
    ;
}

/// A pin that can carry the transmit line for a remap setting.
pub trait Tx<const REMAP: u8> {
    /// Whether this pin choice actually connects the line.
    spec fn spec_connected() -> bool;

    /// Reflect the line's presence in the control registers.
    fn enable(usart: &mut UsartRegs)
        ensures
            final(usart).tx_enabled == Self::spec_connected(),
            final(usart).enabled == old(usart).enabled,
            final(usart).rx_enabled == old(usart).rx_enabled,
            final(usart).clk_enabled == old(usart).clk_enabled,
            final(usart).cts_enabled == old(usart).cts_enabled,
            final(usart).rts_enabled == old(usart).rts_enabled,
            final(usart).nine_bits == old(usart).nine_bits,
            final(usart).parity_control == old(usart).parity_control,
            final(usart).parity_odd == old(usart).parity_odd,
            final(usart).stop == old(usart).stop,
            final(usart).brr_mantissa == old(usart).brr_mantissa,
            final(usart).brr_fraction == old(usart).brr_fraction,
    ;
}

/// A pin that can carry the receive line for a remap setting.
pub trait Rx<const REMAP: u8> {
    /// Whether this pin choice actually connects the line.
    spec fn spec_connected() -> bool;

    /// Reflect the line's presence in the control registers.
    fn enable(usart: &mut UsartRegs)
        ensures
            final(usart).rx_enabled == Self::spec_connected(),
            final(usart).enabled == old(usart).enabled,
            final(usart).tx_enabled == old(usart).tx_enabled,
            final(usart).clk_enabled == old(usart).clk_enabled,
            final(usart).cts_enabled == old(usart).cts_enabled,
            final(usart).rts_enabled == old(usart).rts_enabled,
            final(usart).nine_bits == old(usart).nine_bits,
            final(usart).parity_control == old(usart).parity_control,
            final(usart).parity_odd == old(usart).parity_odd,
            final(usart).stop == old(usart).stop,
            final(usart).brr_mantissa == old(usart).brr_mantissa,
            final(usart).brr_fraction == old(usart).brr_fraction,
    ;
}

/// A pin that can carry the clear-to-send line for a remap setting.
pub trait Cts<const REMAP: u8> {
    /// Whether this pin choice actually connects the line.
    spec fn spec_connected() -> bool;

    /// Reflect the line's presence in the control registers.
    fn enable(usart: &mut UsartRegs)
        ensures
            final(usart).cts_enabled == Self::spec_connected(),
            final(usart).enabled == old(usart).enabled,
            final(usart).tx_enabled == old(usart).tx_enabled,
            final(usart).rx_enabled == old(usart).rx_enabled,
            final(usart).clk_enabled == old(usart).clk_enabled,
            final(usart).rts_enabled == old(usart).rts_enabled,
            final(usart).nine_bits == old(usart).nine_bits,
            final(usart).parity_control == old(usart).parity_control,
            final(usart).parity_odd == old(usart).parity_odd,
            final(usart).stop == old(usart).stop,
            final(usart).brr_mantissa == old(usart).brr_mantissa,
            final(usart).brr_fraction == old(usart).brr_fraction,
    ;
}

/// A pin that can carry the request-to-send line for a remap setting.
pub trait Rts<const REMAP: u8> {
    /// Whether this pin choice actually connects the line.
    spec fn spec_connected() -> bool;

    /// Reflect the line's presence in the control registers.
    fn enable(usart: &mut UsartRegs)
        ensures
            final(usart).rts_enabled == Self::spec_connected(),
            final(usart).enabled == old(usart).enabled,
            final(usart).tx_enabled == old(usart).tx_enabled,
            final(usart).rx_enabled == old(usart).rx_enabled,
            final(usart).clk_enabled == old(usart).clk_enabled,
            final(usart).cts_enabled == old(usart).cts_enabled,
            final(usart).nine_bits == old(usart).nine_bits,
            final(usart).parity_control == old(usart).parity_control,
            final(usart).parity_odd == old(usart).parity_odd,
            final(usart).stop == old(usart).stop,
            final(usart).brr_mantissa == old(usart).brr_mantissa,
            final(usart).brr_fraction == old(usart).brr_fraction,
    ;
}

/// Absent synchronous-clock pin.
pub struct NoCk {}

/// Absent transmit pin.
pub struct NoTx {}

/// Absent receive pin.
pub struct NoRx {}

/// Absent clear-to-send pin.
pub struct NoCts {}

/// Absent request-to-send pin.
pub struct NoRts {}

impl<const REMAP: u8> Ck<REMAP> for NoCk {
    open spec fn spec_connected() -> bool {
        false
    }

    fn enable(usart: &mut UsartRegs) {
        usart.clk_enabled = false;
    }
}

impl<const REMAP: u8> Tx<REMAP> for NoTx {
    open spec fn spec_connected() -> bool {
        false
    }

    fn enable(usart: &mut UsartRegs) {
        usart.tx_enabled = false;
    }
}

impl<const REMAP: u8> Rx<REMAP> for NoRx {
    open spec fn spec_connected() -> bool {
        false
    }

    fn enable(usart: &mut UsartRegs) {
        usart.rx_enabled = false;
    }
}

impl<const REMAP: u8> Cts<REMAP> for NoCts {
    open spec fn spec_connected() -> bool {
        false
    }

    fn enable(usart: &mut UsartRegs) {
        usart.cts_enabled = false;
    }
}

impl<const REMAP: u8> Rts<REMAP> for NoRts {
    open spec fn spec_connected() -> bool {
        false
    }

    fn enable(usart: &mut UsartRegs) {
        usart.rts_enabled = false;
    }
}

impl Ck<0> for crate::gpio::PD4<crate::gpio::Alternate<crate::gpio::PushPull>> {
    open spec fn spec_connected() -> bool {
        true
    }

    fn enable(usart: &mut UsartRegs) {
        usart.clk_enabled = true;
    }
}

impl Tx<0> for crate::gpio::PD5<crate::gpio::Alternate<crate::gpio::PushPull>> {
    open spec fn spec_connected() -> bool {
        true
    }

    fn enable(usart: &mut UsartRegs) {
        usart.tx_enabled = true;
    }
}

impl Rx<0> for crate::gpio::PD6<crate::gpio::Input<crate::gpio::Floating>> {
    open spec fn spec_connected() -> bool {
        true
    }

    fn enable(usart: &mut UsartRegs) {
        usart.rx_enabled = true;
    }
}

impl Cts<0> for crate::gpio::PD3<crate::gpio::Input<crate::gpio::Floating>> {
    open spec fn spec_connected() -> bool {
        true
    }

    fn enable(usart: &mut UsartRegs) {
        usart.cts_enabled = true;
    }
}

impl Rts<0> for crate::gpio::PC2<crate::gpio::Alternate<crate::gpio::PushPull>> {
    open spec fn spec_connected() -> bool {
        true
    }

    fn enable(usart: &mut UsartRegs) {
        usart.rts_enabled = true;
    }
}

impl Ck<1> for crate::gpio::PD7<crate::gpio::Alternate<crate::gpio::PushPull>> {
    open spec fn spec_connected() -> bool {
        true
    }

    fn enable(usart: &mut UsartRegs) {
        usart.clk_enabled = true;
    }
}

impl Tx<1> for crate::gpio::PD0<crate::gpio::Alternate<crate::gpio::PushPull>> {
    open spec fn spec_connected() -> bool {
        true
    }

    fn enable(usart: &mut UsartRegs) {
        usart.tx_enabled = true;
    }
}

impl Rx<1> for crate::gpio::PD1<crate::gpio::Input<crate::gpio::Floating>> {
    open spec fn spec_connected() -> bool {
        true
    }

    fn enable(usart: &mut UsartRegs) {
        usart.rx_enabled = true;
    }
}

impl Cts<1> for crate::gpio::PC3<crate::gpio::Input<crate::gpio::Floating>> {
    open spec fn spec_connected() -> bool {
        true
    }

    fn enable(usart: &mut UsartRegs) {
        usart.cts_enabled = true;
    }
}

impl Rts<1> for crate::gpio::PC2<crate::gpio::Alternate<crate::gpio::PushPull>> {
    open spec fn spec_connected() -> bool {
        true
    }

    fn enable(usart: &mut UsartRegs) {
        usart.rts_enabled = true;
    }
}

impl Ck<2> for crate::gpio::PD7<crate::gpio::Alternate<crate::gpio::PushPull>> {
    open spec fn spec_connected() -> bool {
        true
    }

    fn enable(usart: &mut UsartRegs) {
        usart.clk_enabled = true;
    }
}

impl Tx<2> for crate::gpio::PD6<crate::gpio::Alternate<crate::gpio::PushPull>> {
    open spec fn spec_connected() -> bool {
        true
    }

    fn enable(usart: &mut UsartRegs) {
        usart.tx_enabled = true;
    }
}

impl Rx<2> for crate::gpio::PD5<crate::gpio::Input<crate::gpio::Floating>> {
    open spec fn spec_connected() -> bool {
        true
    }

    fn enable(usart: &mut UsartRegs) {
        usart.rx_enabled = true;
    }
}

impl Cts<2> for crate::gpio::PC6<crate::gpio::Input<crate::gpio::Floating>> {
    open spec fn spec_connected() -> bool {
        true
    }

    fn enable(usart: &mut UsartRegs) {
        usart.cts_enabled = true;
    }
}

impl Rts<2> for crate::gpio::PC7<crate::gpio::Alternate<crate::gpio::PushPull>> {
    open spec fn spec_connected() -> bool {
        true
    }

    fn enable(usart: &mut UsartRegs) {
        usart.rts_enabled = true;
    }
}

impl Ck<3> for crate::gpio::PC5<crate::gpio::Alternate<crate::gpio::PushPull>> {
    open spec fn spec_connected() -> bool {
        true
    }

    fn enable(usart: &mut UsartRegs) {
        usart.clk_enabled = true;
    }
}

impl Tx<3> for crate::gpio::PC0<crate::gpio::Alternate<crate::gpio::PushPull>> {
    open spec fn spec_connected() -> bool {
        true
    }

    fn enable(usart: &mut UsartRegs) {
        usart.tx_enabled = true;
    }
}

impl Rx<3> for crate::gpio::PC1<crate::gpio::Input<crate::gpio::Floating>> {
    open spec fn spec_connected() -> bool {
        true
    }

    fn enable(usart: &mut UsartRegs) {
        usart.rx_enabled = true;
    }
}

impl Cts<3> for crate::gpio::PC6<crate::gpio::Input<crate::gpio::Floating>> {
    open spec fn spec_connected() -> bool {
        true
    }

    fn enable(usart: &mut UsartRegs) {
        usart.cts_enabled = true;
    }
}

impl Rts<3> for crate::gpio::PC7<crate::gpio::Alternate<crate::gpio::PushPull>> {
    open spec fn spec_connected() -> bool {
        true
    }

    fn enable(usart: &mut UsartRegs) {
        usart.rts_enabled = true;
    }
}


/// Serial error
#[derive(Clone, Copy, Debug, PartialEq, Eq, Structural)]
#[non_exhaustive]
pub enum Error {
    /// Framing error
    Framing,
    /// Noise error
    Noise,
    /// RX buffer overrun
    Overrun,
    /// Parity check error
    Parity,
}

/// What the receiver status flags demand, in the order the hardware
/// prioritises them: a parity error first, then framing, noise and
/// overrun; otherwise a word is ready exactly when the receive flag is
/// set.
pub fn read_status(pe: bool, fe: bool, ne: bool, ore: bool, rxne: bool) -> (r: Result<bool, Error>)
    ensures
        r == (if pe {
            Err::<bool, Error>(Error::Parity)
        } else if fe {
            Err::<bool, Error>(Error::Framing)
        } else if ne {
            Err::<bool, Error>(Error::Noise)
        } else if ore {
            Err::<bool, Error>(Error::Overrun)
        } else {
            Ok::<bool, Error>(rxne)
        }),
{
    if pe {
        Err(Error::Parity)
    } else if fe {
        Err(Error::Framing)
    } else if ne {
        Err(Error::Noise)
    } else if ore {
        Err(Error::Overrun)
    } else {
        Ok(rxne)
    }
}

/// Number of data bits in a frame.
#[derive(Clone, Copy, PartialEq, Eq, Structural, Debug)]
pub enum DataBits {
    DataBits8,
    DataBits9,
}

/// Parity generation and checking.
#[derive(Clone, Copy, PartialEq, Eq, Structural, Debug)]
pub enum Parity {
    ParityNone,
    ParityEven,
    ParityOdd,
}

/// Number of stop bits in a frame.
#[derive(Clone, Copy, PartialEq, Eq, Structural, Debug)]
pub enum StopBits {
    /// 1 stop bit
    STOP1,
    /// 0.5 stop bits
    STOP0P5,
    /// 2 stop bits
    STOP2,
    /// 1.5 stop bits
    STOP1P5,
}

impl StopBits {
    /// Register encoding of the `STOP` field.
    pub open spec fn spec_to_raw(self) -> u8 {
        match self {
            StopBits::STOP1 => 0,
            StopBits::STOP0P5 => 1,
            StopBits::STOP2 => 2,
            StopBits::STOP1P5 => 3,
        }
    }

    /// Register encoding of the `STOP` field.
    #[verifier::when_used_as_spec(spec_to_raw)]
    pub fn to_raw(self) -> (r: u8)
        ensures
            r == self.spec_to_raw(),
    {
        match self {
            StopBits::STOP1 => 0,
            StopBits::STOP0P5 => 1,
            StopBits::STOP2 => 2,
            StopBits::STOP1P5 => 3,
        }
    }
}

/// Serial line configuration.
#[derive(Clone, Copy, PartialEq, Eq, Structural, Debug)]
#[non_exhaustive]
pub struct Config {
    pub baudrate: u32,
    pub data_bits: DataBits,
    pub stop_bits: StopBits,
    pub parity: Parity,
}

impl Default for Config {
    /// 115200 baud, 8 data bits, no parity, 1 stop bit.
    fn default() -> (r: Self)
        ensures
            r.baudrate == 115200,
            r.data_bits == DataBits::DataBits8,
            r.stop_bits == StopBits::STOP1,
            r.parity == Parity::ParityNone,
    {
        Self {
            baudrate: 115200,
            data_bits: DataBits::DataBits8,
            stop_bits: StopBits::STOP1,
            parity: Parity::ParityNone,
        }
    }
}

/// A configured serial port holding its pins and the model of its
/// register block.
pub struct Usart<CK, TX, RX, CTS, RTS> {
    /// Model of the USART register block.
    pub usart: UsartRegs,
    pub ck: CK,
    pub tx: TX,
    pub rx: RX,
    pub cts: CTS,
    pub rts: RTS,
}

impl<CK, TX, RX, CTS, RTS> Usart<CK, TX, RX, CTS, RTS> {
    /// Deconstruct the port into its pins and the register model.
    pub fn free(self) -> (r: (CK, TX, RX, CTS, RTS, UsartRegs))
        ensures
            r.0 == self.ck,
            r.1 == self.tx,
            r.2 == self.rx,
            r.3 == self.cts,
            r.4 == self.rts,
            r.5 == self.usart,
    {
        (self.ck, self.tx, self.rx, self.cts, self.rts, self.usart)
    }

    /// Attach a synchronous clock pin and enable the clock output.
    pub fn use_clock<const REMAP: u8>(&mut self, clock: CK) where
        CK: Ck<REMAP>,
        TX: Tx<REMAP>,
        RX: Rx<REMAP>,

        ensures
            final(self).usart == (UsartRegs {
                clk_enabled: CK::spec_connected(),
                ..old(self).usart
            }),
            final(self).ck == clock,
            final(self).tx == old(self).tx,
            final(self).rx == old(self).rx,
            final(self).cts == old(self).cts,
            final(self).rts == old(self).rts,
    {
        CK::enable(&mut self.usart);
        self.ck = clock;
    }
}

/// Extension trait that turns the USART peripheral into a serial port.
pub trait UsartExt {
    /// Configure the peripheral: compute the fractional baud-rate divider
    /// for the requested rate from the peripheral-bus frequency, set the
    /// frame format, record the pin remapping, and enable transmitter,
    /// receiver and peripheral.
    fn usart<const REMAP: u8, TX: Tx<REMAP>, RX: Rx<REMAP>>(
        self,
        tx: TX,
        rx: RX,
        config: Config,
        afio: &mut Afio,
        rcc: &mut Rcc,
        clocks: &Clocks,
    ) -> (r: Usart<NoCk, TX, RX, NoCts, NoRts>)
        requires
            clocks.wf(),
            1 <= config.baudrate <= 0x3FFF_FFFF,
        ensures
            ({
                let divider = (25 * clocks.pclk2.raw) as int / (4 * config.baudrate) as int;
                &&& r.usart.brr_mantissa == divider / 100
                &&& r.usart.brr_fraction == divider % 100
                &&& r.usart.enabled
                &&& r.usart.tx_enabled == TX::spec_connected()
                &&& r.usart.rx_enabled == RX::spec_connected()
                &&& !r.usart.clk_enabled
                &&& !r.usart.cts_enabled
                &&& !r.usart.rts_enabled
                &&& r.usart.nine_bits == (config.data_bits == DataBits::DataBits9)
                &&& r.usart.parity_control == (config.parity != Parity::ParityNone)
                &&& r.usart.parity_odd == (config.parity == Parity::ParityOdd)
                &&& r.usart.stop == config.stop_bits.spec_to_raw()
                &&& final(afio).usart1_rm == (REMAP & 0b1 == 1)
                &&& final(afio).usart1_remap1 == ((REMAP & 0b10) >> 1 == 1)
            }),
    ;
}

impl UsartExt for USART1 {
    fn usart<const REMAP: u8, TX: Tx<REMAP>, RX: Rx<REMAP>>(
        self,
        tx: TX,
        rx: RX,
        config: Config,
        afio: &mut Afio,
        rcc: &mut Rcc,
        clocks: &Clocks,
    ) -> (r: Usart<NoCk, TX, RX, NoCts, NoRts>) {
        USART1::enable(&mut rcc.apb2);
        USART1::reset(&mut rcc.apb2);

        AFIO::enable(&mut rcc.apb2);

        let mut usart = UsartRegs::new();

        // The divider counts in quarters of a sixteenth of the bus clock:
        // mantissa and fraction of pclk / (16 * baud), scaled by 100.
        proof {
            crate::rcc::lemma_clocks_bus_ordering(*clocks);
        }
        let apbclk: u32 = clocks.pclk2().raw;
        let integer_divider: u32 = (25 * apbclk) / (4 * config.baudrate);
        let div_m: u32 = integer_divider / 100;
        let div_f: u32 = integer_divider - 100 * div_m;
        usart.brr_mantissa = div_m;
        usart.brr_fraction = div_f;

        afio.set_usart1_remap(REMAP & 0b1 == 1, (REMAP & 0b10) >> 1 == 1);

        // Frame format.
        usart.stop = config.stop_bits.to_raw();
        usart.nine_bits = matches!(config.data_bits, DataBits::DataBits9);
        usart.parity_control = !matches!(config.parity, Parity::ParityNone);
        usart.parity_odd = matches!(config.parity, Parity::ParityOdd);

        TX::enable(&mut usart);
        RX::enable(&mut usart);

        // Run the peripheral.
        usart.enabled = true;

        Usart { ck: NoCk {  }, tx, rx, cts: NoCts {  }, rts: NoRts {  }, usart }
    }
}

} // verus!
