//! UART channel: non-blocking byte write, flush and read with line-error
//! classification.
use vstd::prelude::*;

verus! {

#[verifier::external_type_specification]
#[verifier::reject_recursive_types(E)]
pub struct ExNbError<E>(nb::Error<E>);

#[verifier::external_type_specification]
#[verifier::external_body]
pub struct ExVoid(void::Void);

/// Stop-bit field value for one stop bit.
pub const UART_STOP_BITS_1: u8 = 0;
/// Parity field value for no parity.
pub const UART_PARITY_NONE: u8 = 0;
/// Character-size field value for 8 data bits.
pub const UART_CHAR_SIZE_8: u8 = 0;

/// Register file of one UART, held as plain values: the line settings, the
/// status flags and the receive and transmit data registers.
#[derive(Debug, Clone, Copy, PartialEq, Eq, Structural)]
pub struct UartRegisters {
    pub baud: u16,
    pub stop_bits: u8,
    pub parity: u8,
    pub char_size: u8,
    pub tx_full: bool,
    pub tx_empty: bool,
    pub rx_not_empty: bool,
    pub frame_err: bool,
    pub parity_err: bool,
    pub break_err: bool,
    pub overrun_err: bool,
    pub rx_data: u32,
    pub tx_data: u32,
}

impl UartRegisters {
    /// An idle UART: transmitter empty, nothing received, no errors.
    pub fn new() -> (r: UartRegisters)
        ensures
            r == (UartRegisters {
                baud: 0,
                stop_bits: 0,
                parity: 0,
                char_size: 0,
                tx_full: false,
                tx_empty: true,
                rx_not_empty: false,
                frame_err: false,
                parity_err: false,
                break_err: false,
                overrun_err: false,
                rx_data: 0,
                tx_data: 0,
            }),
    {
        UartRegisters {
            baud: 0,
            stop_bits: 0,
            parity: 0,
            char_size: 0,
            tx_full: false,
            tx_empty: true,
            rx_not_empty: false,
            frame_err: false,
            parity_err: false,
            break_err: false,
            overrun_err: false,
            rx_data: 0,
            tx_data: 0,
        }
    }

    /// Programs baud rate and framing in one configuration write.
    pub fn init(&mut self, baud_rate: u16, stop_bits: u8, parity: u8, char_size: u8)
        ensures
            *final(self) == (UartRegisters {
                baud: baud_rate,
                stop_bits,
                parity,
                char_size,
                ..*old(self)
            }),
    {
        self.baud = baud_rate;
        self.stop_bits = stop_bits;
        self.parity = parity;
        self.char_size = char_size;
    }
}

/// Line errors the receiver detects.
#[derive(Debug, Clone, Copy, PartialEq, Eq, Structural)]
pub enum SerialError {
    Framing,
    Parity,
    Break,
    Overrun,
}

/// What a read of a UART in state `u` returns: the first line error in the
/// order framing, parity, break, overrun; else the received byte if one is
/// waiting; else a request to poll again.
pub open spec fn read_outcome(u: UartRegisters) -> Result<u8, nb::Error<SerialError>> {
    if u.frame_err {
        Err(nb::Error::Other(SerialError::Framing))
    } else if u.parity_err {
        Err(nb::Error::Other(SerialError::Parity))
    } else if u.break_err {
        Err(nb::Error::Other(SerialError::Break))
    } else if u.overrun_err {
        Err(nb::Error::Other(SerialError::Overrun))
    } else if u.rx_not_empty {
        Ok(u.rx_data as u8)
    } else {
        Err(nb::Error::WouldBlock)
    }
}

/// A serial channel over one UART.
pub struct Serial {
    uart: UartRegisters,
}

impl Serial {
    /// The UART registers this channel drives.
    pub closed spec fn regs(&self) -> UartRegisters {
        self.uart
    }

    pub fn new(uart: UartRegisters) -> (r: Serial)
        ensures
            r.regs() == uart,
    {
        Serial { uart }
    }

    /// Borrows the UART registers.
    pub fn uart(&self) -> (r: &UartRegisters)
        ensures
            *r == self.regs(),
    {
        &self.uart
    }

    /// Configures 8 data bits, no parity, one stop bit at `baud_rate`.
    pub fn init(&mut self, baud_rate: u16)
        ensures
            final(self).regs() == (UartRegisters {
                baud: baud_rate,
                stop_bits: UART_STOP_BITS_1,
                parity: UART_PARITY_NONE,
                char_size: UART_CHAR_SIZE_8,
                ..old(self).regs()
            }),
    {
        self.uart.init(baud_rate, UART_STOP_BITS_1, UART_PARITY_NONE, UART_CHAR_SIZE_8);
    }

    /// Sends `byte` unless the transmitter is full, in which case the caller
    /// must try again.
    pub fn write(&mut self, byte: u8) -> (r: nb::Result<(), void::Void>)
        ensures
            old(self).regs().tx_full ==> r == Err::<(), nb::Error<void::Void>>(
                nb::Error::WouldBlock,
            ) && final(self).regs() == old(self).regs(),
            !old(self).regs().tx_full ==> r == Ok::<(), nb::Error<void::Void>>(())
                && final(self).regs() == (UartRegisters {
                tx_data: byte as u32,
                ..old(self).regs()
            }),
    {
        if self.uart.tx_full {
            Err(nb::Error::WouldBlock)
        } else {
            self.uart.tx_data = byte as u32;
            Ok(())
        }
    }

    /// Succeeds once the transmitter is empty; until then the caller must
    /// poll again.
    pub fn flush(&mut self) -> (r: nb::Result<(), void::Void>)
        ensures
            final(self).regs() == old(self).regs(),
            r == if old(self).regs().tx_empty {
                Ok::<(), nb::Error<void::Void>>(())
            } else {
                Err(nb::Error::WouldBlock)
            },
    {
        if self.uart.tx_empty {
            Ok(())
        } else {
            Err(nb::Error::WouldBlock)
        }
    }

    /// Reports the highest-priority line error, else the received byte, else
    /// a request to poll again.
    pub fn read(&mut self) -> (r: nb::Result<u8, SerialError>)
        ensures
            final(self).regs() == old(self).regs(),
            r == read_outcome(old(self).regs()),
    {
        let status = self.uart;
        if status.frame_err {
            return Err(nb::Error::Other(SerialError::Framing));
        }
        if status.parity_err {
            return Err(nb::Error::Other(SerialError::Parity));
        }
        if status.break_err {
            return Err(nb::Error::Other(SerialError::Break));
        }
        if status.overrun_err {
            return Err(nb::Error::Other(SerialError::Overrun));
        }
        if status.rx_not_empty {
            Ok(self.uart.rx_data as u8)
        } else {
            Err(nb::Error::WouldBlock)
        }
    }
}

/// A framing error is reported ahead of every other condition, whatever
/// else the status shows.
pub proof fn framing_error_first(u: UartRegisters)
    requires
        u.frame_err,
    ensures
        read_outcome(u) == Err::<u8, nb::Error<SerialError>>(nb::Error::Other(SerialError::Framing)),
{
}

} // verus!
