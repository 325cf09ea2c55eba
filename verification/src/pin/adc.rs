//! Analogue-to-digital converter: channel selection and the sample FIFO.
//!
//! The converter's registers live as plain data in each handle: channel
//! select, free-running flag, the four-deep sample queue with its
//! threshold, shift and sticky error flags.  The environment queues
//! conversions by pushing samples.

use vstd::prelude::*;

use crate::pin::{Input, Pin, PinID, PinInvalidError};

verus! {

/// One of the five analogue input channels; the last is the on-die
/// temperature sensor.
#[derive(Clone, Copy, Debug, PartialEq, Eq, Structural)]
pub enum AdcChannel {
    Chan0,
    Chan1,
    Chan2,
    Chan3,
    Chan4,
}

impl AdcChannel {
    /// The channel as a number in `0..5`.
    pub open spec fn as_int(self) -> int {
        match self {
            AdcChannel::Chan0 => 0,
            AdcChannel::Chan1 => 1,
            AdcChannel::Chan2 => 2,
            AdcChannel::Chan3 => 3,
            AdcChannel::Chan4 => 4,
        }
    }
}

/// Model of the converter's registers.
#[derive(Debug)]
pub struct AdcRegs {
    /// Converter enable.
    pub en: bool,
    /// Temperature sensor enable.
    pub ts_en: bool,
    /// Selected input channel.
    pub ainsel: u8,
    /// Round-robin channel mask.
    pub rrobin: u8,
    /// Free-running conversion.
    pub start_many: bool,
    /// Conversion done, converter idle.
    pub ready: bool,
    /// Most recent conversion result.
    pub result: u16,
    /// Queued samples, oldest first; the environment fills this.
    pub fifo: Vec<u16>,
    /// Sample queue enable.
    pub fifo_en: bool,
    /// Interrupt threshold of the sample queue.
    pub thresh: u8,
    /// Hand samples to the DMA engine.
    pub dreq_en: bool,
    /// Return bytes instead of half-words.
    pub shift: bool,
    /// Sticky overrun flag.
    pub over: bool,
    /// Sticky underrun flag.
    pub under: bool,
    /// Latched sample-queue interrupt.
    pub intr_fifo: bool,
    /// Sample-queue interrupt enable.
    pub inte_fifo: bool,
    /// Pacing divisor, integer part.
    pub div_int: u16,
    /// Pacing divisor, fractional part.
    pub div_frac: u8,
}

impl AdcRegs {
    /// The reset converter.
    pub fn new() -> (r: AdcRegs)
        ensures
            r.en == false && r.ts_en == false && r.ainsel == 0 && r.rrobin == 0,
            r.start_many == false && r.ready == true && r.result == 0,
            r.fifo@.len() == 0 && r.fifo_en == false && r.thresh == 0,
            r.dreq_en == false && r.shift == false && r.over == false && r.under == false,
            r.intr_fifo == false && r.inte_fifo == false && r.div_int == 0 && r.div_frac == 0,
    {
        AdcRegs {
            en: false,
            ts_en: false,
            ainsel: 0,
            rrobin: 0,
            start_many: false,
            ready: true,
            result: 0,
            fifo: Vec::new(),
            fifo_en: false,
            thresh: 0,
            dreq_en: false,
            shift: false,
            over: false,
            under: false,
            intr_fifo: false,
            inte_fifo: false,
            div_int: 0,
            div_frac: 0,
        }
    }
}

/// An input pin handed to the converter.
pub struct AdcPin {
    /// The channel the pin feeds.
    pub i: AdcChannel,
    /// The converter model.
    pub adc: AdcRegs,
}

/// The on-die temperature sensor, enabled.
pub struct AdcTempSensor {
    /// The converter model.
    pub adc: AdcRegs,
}

/// A round-robin channel selection mask.
#[derive(Clone, Copy, Debug, PartialEq, Eq, Structural)]
pub struct AdcSelection(pub u8);

/// Sources the converter can sample.
pub trait AdcSelector {
    /// The channel this source feeds.
    fn channel(&self) -> AdcChannel;
}

impl AdcSelector for AdcPin {
    fn channel(&self) -> AdcChannel {
        self.i
    }
}

/// The running sample queue, reading half-words or bytes.
pub struct AdcFifo<R> {
    /// The converter model.
    pub adc: AdcRegs,
    /// Carries the sample width.
    pub width: core::marker::PhantomData<R>,
}

/// Configures the sample queue before it starts.
pub struct AdcFifoBuilder<R> {
    /// The converter model.
    pub adc: AdcRegs,
    /// Carries the sample width.
    pub width: core::marker::PhantomData<R>,
}

impl AdcPin {
    /// Hand an input pin to the converter; only the four analogue-capable
    /// pins are accepted.
    pub fn new(p: Pin<Input>) -> (r: Result<AdcPin, PinInvalidError>)
        ensures
            p.i == PinID::Pin26 ==> (r matches Ok(a) && a.i == AdcChannel::Chan0),
            p.i == PinID::Pin27 ==> (r matches Ok(a) && a.i == AdcChannel::Chan1),
            p.i == PinID::Pin28 ==> (r matches Ok(a) && a.i == AdcChannel::Chan2),
            p.i == PinID::Pin29 ==> (r matches Ok(a) && a.i == AdcChannel::Chan3),
            (p.i != PinID::Pin26 && p.i != PinID::Pin27 && p.i != PinID::Pin28 && p.i
                != PinID::Pin29) ==> r is Err,
    {
        let i: AdcChannel = match p.i {
            PinID::Pin26 => AdcChannel::Chan0,
            PinID::Pin27 => AdcChannel::Chan1,
            PinID::Pin28 => AdcChannel::Chan2,
            PinID::Pin29 => AdcChannel::Chan3,
            _ => {
                return Err(PinInvalidError);
            },
        };
        let mut a = AdcRegs::new();
        a.en = true;
        Ok(AdcPin { i, adc: a })
    }

    /// The most recent conversion result.
    pub fn read(&self) -> (r: u16)
        ensures
            r == self.adc.result,
    {
        self.adc.result
    }

    /// Whether the converter is idle.
    pub fn is_ready(&self) -> (r: bool)
        ensures
            r == self.adc.ready,
    {
        self.adc.ready
    }

    /// Leave free-running mode.
    pub fn stop_free_running(&mut self)
        ensures
            *final(self) == (AdcPin {
                adc: AdcRegs { start_many: false, ..old(self).adc },
                ..*old(self)
            }),
    {
        self.set_free_running(false)
    }

    /// Enter free-running mode on this pin's channel.
    pub fn start_free_running(&mut self)
        ensures
            *final(self) == (AdcPin {
                adc: AdcRegs {
                    start_many: true,
                    ainsel: (old(self).i.as_int()) as u8,
                    ..old(self).adc
                },
                ..*old(self)
            }),
    {
        self.set_free_running(true)
    }

    /// Enter or leave free-running mode.
    pub fn set_free_running(&mut self, en: bool)
        ensures
            en ==> *final(self) == (AdcPin {
                adc: AdcRegs {
                    start_many: true,
                    ainsel: (old(self).i.as_int()) as u8,
                    ..old(self).adc
                },
                ..*old(self)
            }),
            !en ==> *final(self) == (AdcPin {
                adc: AdcRegs { start_many: false, ..old(self).adc },
                ..*old(self)
            }),
    {
        if en {
            self.adc.ainsel = match self.i {
                AdcChannel::Chan0 => 0,
                AdcChannel::Chan1 => 1,
                AdcChannel::Chan2 => 2,
                AdcChannel::Chan3 => 3,
                AdcChannel::Chan4 => 4,
            };
            self.adc.start_many = true;
        } else {
            self.adc.start_many = false;
        }
    }
}

impl AdcFifo<u8> {
    /// Take the oldest queued sample as a byte.
    pub fn read(&mut self) -> (r: u8)
        requires
            old(self).adc.fifo@.len() > 0,
        ensures
            r == old(self).adc.fifo@[0] as u8,
            *final(self) == (AdcFifo {
                adc: AdcRegs { fifo: final(self).adc.fifo, ..old(self).adc },
                ..*old(self)
            }),
            final(self).adc.fifo@ == old(self).adc.fifo@.drop_first(),
    {
        self.adc.fifo.remove(0) as u8
    }
}

impl AdcFifo<u16> {
    /// Take the oldest queued sample.
    pub fn read(&mut self) -> (r: u16)
        requires
            old(self).adc.fifo@.len() > 0,
        ensures
            r == old(self).adc.fifo@[0],
            *final(self) == (AdcFifo {
                adc: AdcRegs { fifo: final(self).adc.fifo, ..old(self).adc },
                ..*old(self)
            }),
            final(self).adc.fifo@ == old(self).adc.fifo@.drop_first(),
    {
        self.adc.fifo.remove(0)
    }
}

impl<R> AdcFifo<R> {
    /// Drop every queued sample.
    pub fn clear(&mut self)
        ensures
            *final(self) == (AdcFifo {
                adc: AdcRegs { fifo: final(self).adc.fifo, ..old(self).adc },
                ..*old(self)
            }),
            final(self).adc.fifo@.len() == 0,
    {
        loop
            invariant
                *self == (AdcFifo {
                    adc: AdcRegs { fifo: self.adc.fifo, ..old(self).adc },
                    ..*old(self)
                }),
            decreases self.adc.fifo@.len(),
        {
            if self.adc.fifo.len() == 0 {
                return ;
            }
            let _s: u16 = self.read_sample();
        }
    }

    /// How many samples wait in the queue (the level field saturates).
    pub fn len(&self) -> (r: u8)
        ensures
            self.adc.fifo@.len() <= 255 ==> r as int == self.adc.fifo@.len(),
            self.adc.fifo@.len() > 255 ==> r == 255u8,
    {
        let n: usize = self.adc.fifo.len();
        if n > 255 {
            255
        } else {
            n as u8
        }
    }

    /// Pause free-running conversion.
    pub fn pause(&mut self)
        ensures
            *final(self) == (AdcFifo {
                adc: AdcRegs { start_many: false, ..old(self).adc },
                ..*old(self)
            }),
    {
        self.state(true);
    }

    /// Resume free-running conversion.
    pub fn resume(&mut self)
        ensures
            *final(self) == (AdcFifo {
                adc: AdcRegs { start_many: true, ..old(self).adc },
                ..*old(self)
            }),
    {
        self.state(false);
    }

    /// Request one conversion.
    pub fn trigger(&mut self)
        ensures
            *final(self) == (AdcFifo {
                adc: AdcRegs { ready: false, ..old(self).adc },
                ..*old(self)
            }),
    {
        self.adc.ready = false;
    }

    /// Wait for the queue's interrupt; the model asks it to be pending
    /// already, where hardware would spin.
    pub fn wait_interrupt(&self)
        requires
            self.adc.intr_fifo,
    {
    }

    /// Whether the converter is idle.
    pub fn is_ready(&self) -> (r: bool)
        ensures
            r == self.adc.ready,
    {
        self.adc.ready
    }

    /// Whether free-running conversion is paused.
    pub fn is_paused(&self) -> (r: bool)
        ensures
            r == !self.adc.start_many,
    {
        !self.adc.start_many
    }

    /// Read and clear the sticky overrun flag.
    pub fn is_overrun(&mut self) -> (r: bool)
        ensures
            r == old(self).adc.over,
            *final(self) == (AdcFifo {
                adc: AdcRegs { over: false, ..old(self).adc },
                ..*old(self)
            }),
    {
        let r: bool = self.adc.over;
        self.adc.over = false;
        r
    }

    /// Read and clear the sticky underrun flag.
    pub fn is_underrun(&mut self) -> (r: bool)
        ensures
            r == old(self).adc.under,
            *final(self) == (AdcFifo {
                adc: AdcRegs { under: false, ..old(self).adc },
                ..*old(self)
            }),
    {
        let r: bool = self.adc.under;
        self.adc.under = false;
        r
    }

    /// Take the oldest queued sample, or the last result when the queue
    /// is empty.
    pub fn read_sample(&mut self) -> (r: u16)
        ensures
            old(self).adc.fifo@.len() == 0 ==> r == old(self).adc.result && *final(self) == *old(
                self,
            ),
            old(self).adc.fifo@.len() > 0 ==> r == old(self).adc.fifo@[0] && *final(self)
                == (AdcFifo {
                adc: AdcRegs { fifo: final(self).adc.fifo, ..old(self).adc },
                ..*old(self)
            }) && final(self).adc.fifo@ == old(self).adc.fifo@.drop_first(),
    {
        if self.adc.fifo.len() == 0 {
            self.adc.result
        } else {
            self.adc.fifo.remove(0)
        }
    }

    /// Pause or resume free-running conversion.
    pub fn state(&mut self, paused: bool)
        ensures
            *final(self) == (AdcFifo {
                adc: AdcRegs { start_many: !paused, ..old(self).adc },
                ..*old(self)
            }),
    {
        self.adc.start_many = !paused;
    }
}

impl AdcFifoBuilder<u16> {
    /// Start configuring the sample queue.
    pub fn new() -> (r: AdcFifoBuilder<u16>)
        ensures
            r.adc.fifo@.len() == 0,
            r.adc.fifo_en == false,
            r.adc.shift == false,
            r.adc.start_many == false,
    {
        AdcFifoBuilder { adc: AdcRegs::new(), width: core::marker::PhantomData }
    }

    /// Narrow the queue to bytes.
    pub fn shift(self) -> (r: AdcFifoBuilder<u8>)
        ensures
            r.adc == (AdcRegs { shift: true, ..self.adc }),
    {
        let mut a = self.adc;
        a.shift = true;
        AdcFifoBuilder { adc: a, width: core::marker::PhantomData }
    }
}

impl<R> AdcFifoBuilder<R> {
    /// Enable the queue and start converting.
    pub fn start(self) -> (r: AdcFifo<R>)
        ensures
            r.adc == (AdcRegs { fifo_en: true, ready: false, ..self.adc }),
    {
        self.start_paused(false)
    }

    /// Enable the queue, converting only when `paused` is clear.
    pub fn start_paused(self, paused: bool) -> (r: AdcFifo<R>)
        ensures
            paused ==> r.adc == (AdcRegs { fifo_en: true, ..self.adc }),
            !paused ==> r.adc == (AdcRegs { fifo_en: true, ready: false, ..self.adc }),
    {
        let mut a = self.adc;
        a.fifo_en = true;
        if !paused {
            a.ready = false;
        }
        AdcFifo { adc: a, width: core::marker::PhantomData }
    }

    /// Select the channel to convert.
    pub fn channel(self, pin: &AdcPin) -> (r: AdcFifoBuilder<R>)
        ensures
            r.adc == (AdcRegs { ainsel: (pin.i.as_int()) as u8, ..self.adc }),
    {
        let mut a = self.adc;
        a.ainsel = match pin.i {
            AdcChannel::Chan0 => 0,
            AdcChannel::Chan1 => 1,
            AdcChannel::Chan2 => 2,
            AdcChannel::Chan3 => 3,
            AdcChannel::Chan4 => 4,
        };
        AdcFifoBuilder { adc: a, width: self.width }
    }

    /// Select a round-robin channel set.
    pub fn selection(self, v: AdcSelection) -> (r: AdcFifoBuilder<R>)
        ensures
            r.adc == (AdcRegs { rrobin: v.0, ..self.adc }),
    {
        let mut a = self.adc;
        a.rrobin = v.0;
        AdcFifoBuilder { adc: a, width: self.width }
    }
}

} // verus!
