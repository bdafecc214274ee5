//! The serial standard-output sink: a blocking transmit half behind a
//! line-ending translation.
//!
//! On the target this sink is a process-wide singleton reached only under a
//! critical section; here it is an explicit value handed back by
//! [`configure`], to be stored by the composition root, which makes the
//! single-writer discipline visible instead of ambient.

use vstd::prelude::*;

use crate::clock::Clocks;
use crate::hw::UartRegs;
use crate::time::Bps;
use crate::uart::{Blocking, Pin16, Pin17, Rx, Serial, SerialError, Tx};
use vstd::string::StringSliceAdditionalSpecFns;

verus! {

/// The line-feed byte; written as carriage return plus line feed.
pub const LINE_FEED: u8 = 0x0a;

/// The carriage-return byte.
pub const CARRIAGE_RETURN: u8 = 0x0d;

/// A byte sequence with every line feed preceded by a carriage return: what
/// the sink emits for the given text bytes.
pub open spec fn crlf_encode(s: Seq<u8>) -> Seq<u8>
    decreases s.len(),
{
    if s.len() == 0 {
        Seq::empty()
    } else {
        crlf_encode(s.drop_last()) + if s.last() == LINE_FEED {
            seq![CARRIAGE_RETURN, LINE_FEED]
        } else {
            seq![s.last()]
        }
    }
}

/// Extending the text by one byte extends the encoding by that byte, with a
/// carriage return in front of a line feed.
proof fn lemma_crlf_encode_step(s: Seq<u8>, i: int)
    requires
        0 <= i < s.len(),
    ensures
        crlf_encode(s.take(i + 1)) == crlf_encode(s.take(i)) + if s[i] == LINE_FEED {
            seq![CARRIAGE_RETURN, LINE_FEED]
        } else {
            seq![s[i]]
        },
{
    assert(s.take(i + 1).drop_last() =~= s.take(i));
    assert(s.take(i + 1).last() == s[i]);
}

/// The standard-output sink: the transmit half of the blocking serial port.
pub struct SerialWrapper(pub Tx<Pin17, Blocking>);

/// Configure standard output: set up the blocking serial port, keep its
/// transmit half as the sink, and hand the receive half back to the caller.
pub fn configure(uart: UartRegs, tx: Pin17, rx: Pin16, baud_rate: Bps, clocks: Clocks) -> (r: (
    SerialWrapper,
    Rx<Pin16, Blocking>,
))
    requires
        baud_rate.0 > 0,
        clocks.tlclk.0 as int / baud_rate.0 as int >= 1,
    ensures
        r.0.0.regs == uart.tx,
        r.0.0.pin == tx,
        r.1.regs.data == uart.rx.data,
        r.1.regs.empty == uart.rx.empty,
        !r.1.regs.ie_rxwm,
        !r.1.regs.ie_txwm,
        r.1.pin == rx,
{
    let serial = Serial::new_blocking(uart, (tx, rx), baud_rate, clocks);
    let (tx_half, rx_half) = serial.split();
    (SerialWrapper(tx_half), rx_half)
}

impl SerialWrapper {
    /// Write a string to the sink, translating every line feed to carriage
    /// return plus line feed. While the transmit-data register is not full
    /// the whole translation is emitted; a full register surfaces as
    /// would-block with nothing of the failed write emitted, for the caller
    /// to retry.
    pub fn write_str(&mut self, s: &str) -> (r: Result<(), SerialError>)
        ensures
            final(self).0.pin == old(self).0.pin,
            final(self).0.regs.full == old(self).0.regs.full,
            final(self).0.regs.txwm_pending == old(self).0.regs.txwm_pending,
            !old(self).0.regs.full ==> r == Ok::<(), SerialError>(()) && final(self).0.regs.sent@
                == old(self).0.regs.sent@ + crlf_encode(s.spec_bytes()),
            old(self).0.regs.full && s.spec_bytes().len() > 0 ==> r == Err::<
                (),
                SerialError,
            >(SerialError::WouldBlock) && final(self).0.regs.sent@ == old(self).0.regs.sent@,
            old(self).0.regs.full && s.spec_bytes().len() == 0 ==> r == Ok::<(), SerialError>(())
                && final(self).0.regs.sent@ == old(self).0.regs.sent@,
    {
        let bytes = s.as_bytes();
        let mut i: usize = 0;
        while i < bytes.len()
            invariant
                i <= bytes@.len(),
                bytes@ == s.spec_bytes(),
                self.0.pin == old(self).0.pin,
                self.0.regs.full == old(self).0.regs.full,
                self.0.regs.txwm_pending == old(self).0.regs.txwm_pending,
                old(self).0.regs.full ==> i == 0 && self.0.regs.sent@ == old(self).0.regs.sent@,
                !old(self).0.regs.full ==> self.0.regs.sent@ == old(self).0.regs.sent@
                    + crlf_encode(bytes@.take(i as int)),
            decreases bytes@.len() - i,
        {
            let byte = bytes[i];
            if byte == LINE_FEED {
                let res = self.0.blocking_write(CARRIAGE_RETURN);

                if res.is_err() {
                    return Err(SerialError::WouldBlock);
                }
            }
            let res = self.0.blocking_write(byte);

            if res.is_err() {
                return Err(SerialError::WouldBlock);
            }
            proof {
                lemma_crlf_encode_step(bytes@, i as int);
                if bytes@[i as int] == LINE_FEED {
                    assert(self.0.regs.sent@ == old(self).0.regs.sent@ + crlf_encode(
                        bytes@.take(i as int),
                    ) + seq![CARRIAGE_RETURN] + seq![LINE_FEED]);
                    assert(old(self).0.regs.sent@ + crlf_encode(bytes@.take(i + 1)) == old(
                        self,
                    ).0.regs.sent@ + crlf_encode(bytes@.take(i as int)) + seq![CARRIAGE_RETURN]
                        + seq![LINE_FEED]);
                }
                assert(self.0.regs.sent@ =~= old(self).0.regs.sent@ + crlf_encode(
                    bytes@.take(i + 1),
                ));
            }
            i = i + 1;
        }
        proof {
            assert(bytes@.take(bytes@.len() as int) =~= bytes@);
        }
        Ok(())
    }
}

} // verus!
