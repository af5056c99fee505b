//! TCA9554 I/O expander: output-port bookkeeping.

use vstd::prelude::*;

verus! {

/// An expander error.
#[derive(Debug, Clone, Copy)]
pub enum Error<E> {
    Bus(E),
    InvalidPin,
}

/// The expander driver; remembers the last output-port value written.
pub struct Tca9554 {
    output_state: u8,
}

impl Tca9554 {
    pub const OUTPUT_PORT: u8 = 0x01;
    pub const CONFIG: u8 = 0x03;

    /// The remembered output-port value.
    pub closed spec fn output_spec(&self) -> u8 {
        self.output_state
    }

    /// All outputs high.
    pub fn new() -> (r: Self)
        ensures
            r.output_spec() == 0xFF,
    {
        Tca9554 { output_state: 0xFF }
    }

    pub fn output_state(&self) -> (r: u8)
        ensures
            r == self.output_spec(),
    {
        self.output_state
    }

    /// Records an output-port write and returns the frame to send.
    pub fn set_output_port(&mut self, value: u8) -> (r: [u8; 2])
        ensures
            final(self).output_spec() == value,
            r[0] == Tca9554::OUTPUT_PORT,
            r[1] == value,
    {
        self.output_state = value;
        [Tca9554::OUTPUT_PORT, value]
    }

    /// The frame that writes the direction register.
    pub fn config_frame(&self, config: u8) -> (r: [u8; 2])
        ensures
            r[0] == Tca9554::CONFIG,
            r[1] == config,
    {
        [Tca9554::CONFIG, config]
    }

    /// Drives one pin: sets or clears bit `pin` of the output port and
    /// returns the frame to send; pins above 7 are refused and change nothing.
    pub fn write_pin<E>(&mut self, pin: u8, high: bool) -> (r: Result<[u8; 2], Error<E>>)
        ensures
            pin > 7 ==> (r matches Err(Error::InvalidPin) && final(self).output_spec()
                == old(self).output_spec()),
            pin <= 7 ==> (r matches Ok(frame) && frame[0] == Tca9554::OUTPUT_PORT && frame[1]
                == final(self).output_spec()),
            pin <= 7 ==> forall|i: u8|
                i < 8 ==> #[trigger] ((final(self).output_spec() >> i) & 1) == if i == pin {
                    if high {
                        1u8
                    } else {
                        0u8
                    }
                } else {
                    (old(self).output_spec() >> i) & 1
                },
    {
        if pin > 7 {
            return Err(Error::InvalidPin);
        }
        let old_state = self.output_state;
        let new_state: u8 = if high {
            old_state | (1u8 << pin)
        } else {
            old_state & !(1u8 << pin)
        };
        assert(forall|i: u8|
            i < 8 ==> #[trigger] ((new_state >> i) & 1) == if i == pin {
                if high {
                    1u8
                } else {
                    0u8
                }
            } else {
                (old_state >> i) & 1
            }) by (bit_vector)
            requires
                pin <= 7,
                new_state == if high {
                    old_state | (1u8 << pin)
                } else {
                    old_state & !(1u8 << pin)
                },
        ;
        Ok(self.set_output_port(new_state))
    }
}

} // verus!
