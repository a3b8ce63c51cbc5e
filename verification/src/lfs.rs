//! Storage adapter core for filesystem use: resizes and validates
//! block-storage requests and maps the driver's error taxonomy onto the
//! two-valued error space a filesystem expects.

use vstd::prelude::*;

use crate::bus::{ControlPin, FlashBus};
use crate::model::{spec_erased, spec_program};
use crate::{Error, W25q256jv, CAPACITY, N_SECTORS, PAGE_SIZE, SECTOR_SIZE};

verus! {

/// Smallest read a filesystem may issue through the adapter: one byte.
pub const LFS_READ_SIZE: usize = 1;

/// Write unit the adapter reports to the filesystem: one page.
pub const LFS_WRITE_SIZE: usize = PAGE_SIZE as usize;

/// Erase-block size the adapter reports to the filesystem: one sector.
pub const LFS_BLOCK_SIZE: usize = SECTOR_SIZE as usize;

/// Number of erase blocks the adapter reports to the filesystem.
pub const LFS_BLOCK_COUNT: usize = N_SECTORS as usize;

/// Program-erase cycles each block endures before the filesystem should
/// rotate it.
pub const LFS_BLOCK_CYCLES: isize = 100000;

/// The two error values a filesystem distinguishes.
#[derive(Clone, Copy, Debug, PartialEq, Eq, Structural)]
pub enum LfsErrorKind {
    /// The request itself was invalid: misaligned or out of bounds.
    Invalid,
    /// Anything else: transport, pin, handshake, or readback failure.
    Io,
}

/// Maps a driver error onto the filesystem's two-valued error space:
/// alignment and bounds errors are the caller's fault, everything else is
/// an I/O failure.
pub fn to_littlefs_error<S, P>(error: Error<S, P>) -> (r: LfsErrorKind)
    ensures
        error matches Error::NotAligned ==> r == LfsErrorKind::Invalid,
        error matches Error::OutOfBounds ==> r == LfsErrorKind::Invalid,
        !(error matches Error::NotAligned) && !(error matches Error::OutOfBounds) ==> r
            == LfsErrorKind::Io,
{
    match error {
        Error::NotAligned | Error::OutOfBounds => LfsErrorKind::Invalid,
        _ => LfsErrorKind::Io,
    }
}

/// Filesystem storage adapter for [`W25q256jv`]: owns the driver and
/// forwards byte-addressed requests to it.
pub struct W25q256jvLfsStorage<SPI, HOLD, WP> {
    flash: W25q256jv<SPI, HOLD, WP>,
}

impl<SPI: FlashBus, HOLD: ControlPin, WP: ControlPin<PinError = HOLD::PinError>> W25q256jvLfsStorage<
    SPI,
    HOLD,
    WP,
> {
    /// The driver this adapter wraps.
    pub closed spec fn flash(&self) -> W25q256jv<SPI, HOLD, WP> {
        self.flash
    }

    /// Wraps a driver in the adapter.
    pub fn new(flash: W25q256jv<SPI, HOLD, WP>) -> (r: Self)
        ensures
            r.flash() == flash,
    {
        Self { flash }
    }

    /// Hands the driver back.
    pub fn into_inner(self) -> (r: W25q256jv<SPI, HOLD, WP>)
        ensures
            r == self.flash(),
    {
        self.flash
    }

    /// Reads `buf.len()` bytes starting at byte offset `off`.
    /// Returns the number of bytes read.
    pub fn read(&mut self, off: usize, buf: &mut Vec<u8>) -> (r: Result<usize, LfsErrorKind>)
        ensures
            final(buf)@.len() == old(buf)@.len(),
            old(self).flash().same_config(&final(self).flash()),
            final(self).flash().chip_mem() == old(self).flash().chip_mem(),
            final(self).flash().chip_write_latch() == old(self).flash().chip_write_latch(),
            final(self).flash().chip_four_byte_mode() == old(self).flash().chip_four_byte_mode(),
            final(self).flash().chip_busy() ==> old(self).flash().chip_busy(),
            off + old(buf)@.len() > CAPACITY ==> r matches Err(LfsErrorKind::Invalid),
            r matches Err(LfsErrorKind::Invalid) ==> {
                &&& off + old(buf)@.len() > CAPACITY
                &&& *final(self) == *old(self)
                &&& *final(buf) == *old(buf)
            },
            r matches Err(LfsErrorKind::Io) ==> off + old(buf)@.len() <= CAPACITY,
            r matches Ok(n) ==> {
                &&& n == old(buf)@.len()
                &&& off + old(buf)@.len() <= CAPACITY
                &&& (!old(self).flash().chip_busy() ==> final(buf)@ == old(
                    self,
                ).flash().chip_mem().subrange(off as int, off + old(buf)@.len()))
            },
    {
        if off as u64 > u32::MAX as u64 {
            return Err(LfsErrorKind::Invalid);
        }
        match self.flash.read(off as u32, buf) {
            Ok(()) => Ok(buf.len()),
            Err(e) => Err(to_littlefs_error(e)),
        }
    }

    /// Writes `data` starting at byte offset `off`.
    /// Returns the number of bytes written.
    pub fn write(&mut self, off: usize, data: &[u8]) -> (r: Result<usize, LfsErrorKind>)
        ensures
            old(self).flash().same_config(&final(self).flash()),
            off + data@.len() > CAPACITY ==> r matches Err(LfsErrorKind::Invalid),
            r matches Err(LfsErrorKind::Invalid) ==> off + data@.len() > CAPACITY && *final(self)
                == *old(self),
            r matches Err(LfsErrorKind::Io) ==> off + data@.len() <= CAPACITY,
            r matches Ok(n) ==> {
                &&& n == data@.len()
                &&& off + data@.len() <= CAPACITY
                &&& final(self).flash().chip_mem() == spec_program(
                    old(self).flash().chip_mem(),
                    off as int,
                    data@,
                )
                &&& !final(self).flash().chip_busy()
            },
    {
        if off as u64 > u32::MAX as u64 {
            return Err(LfsErrorKind::Invalid);
        }
        match self.flash.write(off as u32, data) {
            Ok(()) => Ok(data.len()),
            Err(e) => Err(to_littlefs_error(e)),
        }
    }

    /// Erases `len` bytes starting at byte offset `off`; both must be
    /// multiples of SECTOR_SIZE.  Erasing nothing succeeds without touching
    /// the chip.  Returns the number of bytes erased.
    pub fn erase(&mut self, off: usize, len: usize) -> (r: Result<usize, LfsErrorKind>)
        ensures
            old(self).flash().same_config(&final(self).flash()),
            len == 0 ==> (r matches Ok(n) && n == 0) && *final(self) == *old(self),
            (len > 0 && ((off as int) % (SECTOR_SIZE as int) != 0 || (off + len as int) % (SECTOR_SIZE as int)
                != 0)) ==> {
                &&& r matches Err(LfsErrorKind::Invalid)
                &&& *final(self) == *old(self)
            },
            (len > 0 && (off + len as int > u32::MAX || off >= CAPACITY)) ==> {
                &&& r matches Err(LfsErrorKind::Invalid)
                &&& *final(self) == *old(self)
            },
            r matches Err(LfsErrorKind::Invalid) ==> len > 0 && ((off as int) % (
            SECTOR_SIZE as int) != 0 || (off + len as int) % (SECTOR_SIZE as int) != 0 || off
                + len > CAPACITY),
            r matches Err(LfsErrorKind::Io) ==> (off as int) % (SECTOR_SIZE as int) == 0 && (off
                + len as int) % (SECTOR_SIZE as int) == 0,
            r matches Ok(n) ==> len == 0 || {
                &&& n == len
                &&& (off as int) % (SECTOR_SIZE as int) == 0
                &&& (off + len as int) % (SECTOR_SIZE as int) == 0
                &&& off + len <= CAPACITY
                &&& final(self).flash().chip_mem() == spec_erased(
                    old(self).flash().chip_mem(),
                    off as int,
                    len as int,
                )
                &&& !final(self).flash().chip_busy()
            },
    {
        if len == 0 {
            return Ok(0);
        }

        if off as u64 > u32::MAX as u64 || len as u64 > u32::MAX as u64 {
            return Err(LfsErrorKind::Invalid);
        }
        let end: u64 = off as u64 + len as u64;
        if end > u32::MAX as u64 {
            return Err(LfsErrorKind::Invalid);
        }

        match self.flash.erase_range(off as u32, end as u32) {
            Ok(()) => Ok(len),
            Err(e) => Err(to_littlefs_error(e)),
        }
    }
}

} // verus!
