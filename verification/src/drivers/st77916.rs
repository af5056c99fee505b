//! ST77916 QSPI display: windowing and command framing.

use vstd::prelude::*;

verus! {

/// Opcode that precedes a parameter write.
pub const LCD_OPCODE_WRITE_CMD: u8 = 0x02;
/// Opcode that precedes a pixel-data write.
pub const LCD_OPCODE_WRITE_COLOR: u8 = 0x32;

/// One step of the panel's init sequence.
#[derive(Debug, Clone, Copy)]
pub struct InitCmd {
    pub cmd: u8,
    pub data: &'static [u8],
    pub delay_ms: u16,
}

impl InitCmd {
    pub fn new(cmd: u8, data: &'static [u8], delay_ms: u16) -> (r: Self)
        ensures
            r.cmd == cmd,
            r.data == data,
            r.delay_ms == delay_ms,
    {
        InitCmd { cmd, data, delay_ms }
    }
}

/// A display error.
#[derive(Debug)]
pub enum Error<E> {
    Bus(E),
    Pin,
    Transport,
}

/// The display error for an expander error met while pulsing the reset
/// line: a bus error stays a bus error, a bad pin becomes `Pin`.
pub fn map_exio<E>(err: crate::drivers::tca9554::Error<E>) -> (r: Error<E>)
    ensures
        match err {
            crate::drivers::tca9554::Error::Bus(e) => r == Error::Bus(e),
            crate::drivers::tca9554::Error::InvalidPin => r == Error::<E>::Pin,
        },
{
    match err {
        crate::drivers::tca9554::Error::Bus(e) => Error::Bus(e),
        crate::drivers::tca9554::Error::InvalidPin => Error::Pin,
    }
}

/// One write handed to a link: its command (none for pixel data), its bytes,
/// and whether the link reported success.
pub type LinkWrite = (Option<u8>, Seq<u8>, bool);

/// A link that carries parameter and pixel writes to the panel.
///
/// A link may keep a record of the writes it was handed (`link_log`); one
/// that does says so by `obeys_link_log`, and each write then adds itself to
/// the record with the outcome the link reported. A link that keeps none
/// promises nothing of its writes.
pub trait St77916Transport {
    /// Whether this link keeps the record of its writes.
    open spec fn obeys_link_log() -> bool {
        false
    }

    /// The writes this link has been handed so far, oldest first.
    open spec fn link_log(&self) -> Seq<LinkWrite> {
        Seq::empty()
    }

    /// Writes command `cmd` with its parameter bytes.
    fn write_param(&mut self, cmd: u8, data: &[u8]) -> (r: Result<(), ()>)
        ensures
            Self::obeys_link_log() ==> final(self).link_log() == old(self).link_log().push(
                (Some(cmd), data@, r is Ok),
            ),
    ;

    /// Writes pixel bytes into the current window.
    fn write_color(&mut self, data: &[u8]) -> (r: Result<(), ()>)
        ensures
            Self::obeys_link_log() ==> final(self).link_log() == old(self).link_log().push(
                (None, data@, r is Ok),
            ),
    ;
}

/// Whether the link reported success for every write in `w`.
pub open spec fn all_accepted(w: Seq<LinkWrite>) -> bool {
    forall|i: int| 0 <= i < w.len() ==> #[trigger] w[i].2
}

/// The writes of setting a window: the column range (0x2A), and, if the
/// link took it, the row range (0x2B).
pub open spec fn window_writes(w: Seq<LinkWrite>, x0: u16, y0: u16, x1: u16, y1: u16) -> bool {
    &&& 1 <= w.len() <= 2
    &&& w[0].0 == Some(0x2Au8) && w[0].1 == window_bytes_spec(x0, x1)
    &&& (w.len() == 2 <==> w[0].2)
    &&& w.len() == 2 ==> w[1].0 == Some(0x2Bu8) && w[1].1 == window_bytes_spec(y0, y1)
}

/// The writes of a flush: those of setting the window, then, if the link
/// took them all, the pixel bytes.
pub open spec fn flush_writes(w: Seq<LinkWrite>, x0: u16, y0: u16, x1: u16, y1: u16, pixels: Seq<u8>) -> bool {
    ||| window_writes(w, x0, y0, x1, y1) && !all_accepted(w)
    ||| w.len() == 3 && window_writes(w.take(2), x0, y0, x1, y1) && all_accepted(w.take(2))
        && w[2].0 is None && w[2].1 == pixels
}

/// What a call added to a link's log: `after` extends `before` by `w`.
pub open spec fn log_grew(before: Seq<LinkWrite>, after: Seq<LinkWrite>) -> bool {
    before.len() <= after.len() && after.take(before.len() as int) == before
}

/// The ST77916 driver.
pub struct St77916;

/// The big-endian bytes of a start and end coordinate.
pub open spec fn window_bytes_spec(a: u16, b: u16) -> Seq<u8> {
    seq![(a / 256) as u8, (a % 256) as u8, (b / 256) as u8, (b % 256) as u8]
}

/// Big-endian start and end of a column or row range.
pub fn window_bytes(a: u16, b: u16) -> (r: [u8; 4])
    ensures
        r@ == window_bytes_spec(a, b),
{
    let r = [(a >> 8) as u8, a as u8, (b >> 8) as u8, b as u8];
    assert((a >> 8u16) as u8 == (a / 256) as u8) by (bit_vector);
    assert(a as u8 == (a % 256) as u8) by (bit_vector);
    assert((b >> 8u16) as u8 == (b / 256) as u8) by (bit_vector);
    assert(b as u8 == (b % 256) as u8) by (bit_vector);
    assert(r@ =~= window_bytes_spec(a, b));
    r
}

impl St77916 {
    pub fn new() -> (r: Self) {
        St77916
    }

    /// Sets the column (0x2A) and row (0x2B) address window.
    pub fn set_window<T: St77916Transport>(
        &self,
        transport: &mut T,
        x0: u16,
        y0: u16,
        x1: u16,
        y1: u16,
    ) -> (r: Result<(), Error<()>>)
        ensures
            T::obeys_link_log() ==> log_grew(old(transport).link_log(), final(transport).link_log()),
            T::obeys_link_log() ==> window_writes(
                final(transport).link_log().skip(old(transport).link_log().len() as int),
                x0,
                y0,
                x1,
                y1,
            ),
            T::obeys_link_log() ==> (r is Ok <==> all_accepted(
                final(transport).link_log().skip(old(transport).link_log().len() as int),
            )),
            r is Ok || r matches Err(Error::Transport),
    {
        let ghost before = transport.link_log();
        let col = window_bytes(x0, x1);
        let row = window_bytes(y0, y1);
        match transport.write_param(0x2A, &col) {
            Ok(()) => {},
            Err(()) => {
                proof {
                    if T::obeys_link_log() {
                        let w = transport.link_log().skip(before.len() as int);
                        assert(w =~= seq![(Some(0x2Au8), col@, false)]);
                        assert(transport.link_log().take(before.len() as int) =~= before);
                        assert(!w[0].2);
                    }
                }
                return Err(Error::Transport);
            },
        }
        let res = transport.write_param(0x2B, &row);
        proof {
            if T::obeys_link_log() {
                let w = transport.link_log().skip(before.len() as int);
                assert(w =~= seq![(Some(0x2Au8), col@, true), (Some(0x2Bu8), row@, res is Ok)]);
                assert(transport.link_log().take(before.len() as int) =~= before);
                assert(w[1].2 == res is Ok);
            }
        }
        match res {
            Ok(()) => Ok(()),
            Err(()) => Err(Error::Transport),
        }
    }

    /// Sets the window, then streams RGB565 pixels into it.
    pub fn flush_rgb565<T: St77916Transport>(
        &self,
        transport: &mut T,
        x0: u16,
        y0: u16,
        x1: u16,
        y1: u16,
        pixels: &[u8],
    ) -> (r: Result<(), Error<()>>)
        ensures
            T::obeys_link_log() ==> log_grew(old(transport).link_log(), final(transport).link_log()),
            T::obeys_link_log() ==> flush_writes(
                final(transport).link_log().skip(old(transport).link_log().len() as int),
                x0,
                y0,
                x1,
                y1,
                pixels@,
            ),
            T::obeys_link_log() ==> (r is Ok <==> all_accepted(
                final(transport).link_log().skip(old(transport).link_log().len() as int),
            )),
            r is Ok || r matches Err(Error::Transport),
    {
        let ghost before = transport.link_log();
        match self.set_window(transport, x0, y0, x1, y1) {
            Ok(()) => {},
            Err(e) => {
                return Err(e);
            },
        }
        let ghost mid = transport.link_log();
        let res = transport.write_color(pixels);
        proof {
            if T::obeys_link_log() {
                let wm = mid.skip(before.len() as int);
                let w = transport.link_log().skip(before.len() as int);
                assert(mid =~= before + wm);
                assert(w =~= wm.push((None, pixels@, res is Ok)));
                assert(w.take(2) =~= wm);
                assert(transport.link_log().take(before.len() as int) =~= before);
                assert(w[2].2 == res is Ok);
                if res is Ok {
                    assert forall|i: int| 0 <= i < w.len() implies #[trigger] w[i].2 by {
                        if i < 2 {
                            assert(w[i] == wm[i]);
                        }
                    }
                }
            }
        }
        match res {
            Ok(()) => Ok(()),
            Err(()) => Err(Error::Transport),
        }
    }

    /// The 32-bit QSPI header of a parameter write: opcode, 0, command, 0.
    pub fn pack_qspi_param_word(cmd: u8) -> (r: u32)
        ensures
            r == 0x02 * 0x1000000 + cmd as int * 256,
    {
        let r = ((LCD_OPCODE_WRITE_CMD as u32) << 24) | ((cmd as u32) << 8);
        assert(((0x02u32) << 24u32) | ((cmd as u32) << 8u32) == 0x02 * 0x1000000u32 + (cmd as u32)
            * 256) by (bit_vector);
        r
    }

    /// The 32-bit QSPI header of a pixel write: opcode, 0, command, 0.
    pub fn pack_qspi_color_word(cmd: u8) -> (r: u32)
        ensures
            r == 0x32 * 0x1000000 + cmd as int * 256,
    {
        let r = ((LCD_OPCODE_WRITE_COLOR as u32) << 24) | ((cmd as u32) << 8);
        assert(((0x32u32) << 24u32) | ((cmd as u32) << 8u32) == 0x32 * 0x1000000u32 + (cmd as u32)
            * 256) by (bit_vector);
        r
    }
}

} // verus!
