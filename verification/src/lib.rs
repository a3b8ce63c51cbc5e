//! Driver core for the W25Q256JV serial NOR-flash chip.
//!
//! The crate turns byte-addressed read, write, and erase requests into the
//! exact SPI command sequences the chip requires: status polling, the
//! write-enable handshake, page-boundary-aware chunked programming, the
//! erase family, and optional readback verification.  All command framing,
//! chunking, bounds checking, and sequencing logic is verified; the raw bus
//! transactions are reached through the [`bus::FlashBus`] capability trait,
//! whose contracts state how the chip reacts to each command.

use vstd::prelude::*;

pub mod bus;
pub mod lfs;
pub mod model;
pub mod w25q256jv;

verus! {

/// Size in bytes of one programmable page.
pub const PAGE_SIZE: u32 = 256;
/// Number of pages on the chip.
pub const N_PAGES: u32 = 131072;
/// Total capacity of the chip in bytes (32 MiB).
pub const CAPACITY: u32 = PAGE_SIZE * N_PAGES;
/// Size in bytes of one erasable sector (16 pages).
pub const SECTOR_SIZE: u32 = PAGE_SIZE * 16;
/// Number of erasable sectors.
pub const N_SECTORS: u32 = N_PAGES / 16;
/// Size in bytes of one 32 KiB erasable block (8 sectors).
pub const BLOCK_32K_SIZE: u32 = SECTOR_SIZE * 8;
/// Number of 32 KiB blocks.
pub const N_BLOCKS_32K: u32 = N_SECTORS / 8;
/// Size in bytes of one 64 KiB erasable block (16 sectors).
pub const BLOCK_64K_SIZE: u32 = BLOCK_32K_SIZE * 2;
/// Number of 64 KiB blocks.
pub const N_BLOCKS_64K: u32 = N_BLOCKS_32K / 2;

/// Opcode: set the write-enable latch.
pub const CMD_WRITE_ENABLE: u8 = 0x06;
/// Opcode: read status register 1.
pub const CMD_READ_STATUS_1: u8 = 0x05;
/// Opcode: read data, 4-byte address.
pub const CMD_READ_DATA_4BA: u8 = 0x13;
/// Opcode: page program, 4-byte address.
pub const CMD_PAGE_PROGRAM_4BA: u8 = 0x12;
/// Opcode: 4 KiB sector erase, 4-byte address.
pub const CMD_SECTOR_ERASE_4BA: u8 = 0x21;
/// Opcode: 32 KiB block erase (honours the current address mode).
pub const CMD_BLOCK_ERASE_32K: u8 = 0x52;
/// Opcode: 64 KiB block erase, 4-byte address.
pub const CMD_BLOCK_ERASE_64K_4BA: u8 = 0xDC;
/// Opcode: whole-chip erase.
pub const CMD_CHIP_ERASE: u8 = 0xC7;
/// Opcode: enable reset.
pub const CMD_ENABLE_RESET: u8 = 0x66;
/// Opcode: reset device.
pub const CMD_RESET_DEVICE: u8 = 0x99;
/// Opcode: enter 4-byte address mode.
pub const CMD_ENTER_4BYTE_MODE: u8 = 0xB7;
/// Opcode: exit 4-byte address mode.
pub const CMD_EXIT_4BYTE_MODE: u8 = 0xE9;

/// The address encoded big-endian in bytes 1 to 4 of a framed command.
pub open spec fn frame_address(frame: Seq<u8>) -> int {
    frame[1] * 0x100_0000 + frame[2] * 0x1_0000 + frame[3] * 0x100 + frame[4]
}

/// Frames a command for the chip: the opcode byte followed by the 4-byte
/// big-endian address.
pub fn command_and_address(command: u8, address: u32) -> (r: [u8; 5])
    ensures
        r@.len() == 5,
        r@[0] == command,
        frame_address(r@) == address,
{
    let b1: u8 = (address >> 24) as u8;
    let b2: u8 = (address >> 16) as u8;
    let b3: u8 = (address >> 8) as u8;
    let b4: u8 = address as u8;
    proof {
        assert((b1 as u32) * 0x100_0000 + (b2 as u32) * 0x1_0000 + (b3 as u32) * 0x100
            + (b4 as u32) == address) by (bit_vector)
            requires
                b1 == (address >> 24) as u8,
                b2 == (address >> 16) as u8,
                b3 == (address >> 8) as u8,
                b4 == address as u8,
        ;
    }
    [command, b1, b2, b3, b4]
}

/// The errors the driver can report.
///
/// `S` is the error type of the underlying bus transport and `P` the error
/// type of the hold and write-protect pin handles.
#[derive(Debug)]
pub enum Error<S, P> {
    /// The bus transport failed.
    SpiError(S),
    /// Driving a control pin failed.
    PinError(P),
    /// An address or range is not a multiple of the required unit.
    NotAligned,
    /// An address or length exceeds the capacity or a unit boundary.
    OutOfBounds,
    /// The write-enable latch did not set after the enable command.
    WriteEnableFail,
    /// Readback verification found a mismatch after a program or erase.
    ReadbackFail,
}

/// The coarse classes the driver's errors fall into.
#[derive(Clone, Copy, Debug, PartialEq, Eq, Structural)]
pub enum ErrorKind {
    /// An address or range is not a multiple of the required unit.
    NotAligned,
    /// An address or length exceeds the capacity or a unit boundary.
    OutOfBounds,
    /// Any other failure: transport, pin, handshake, or readback.
    Other,
}

impl<S, P> Error<S, P> {
    /// The class this error falls into.
    pub fn kind(&self) -> (r: ErrorKind)
        ensures
            self matches Error::NotAligned ==> r == ErrorKind::NotAligned,
            self matches Error::OutOfBounds ==> r == ErrorKind::OutOfBounds,
            !(self matches Error::NotAligned) && !(self matches Error::OutOfBounds) ==> r
                == ErrorKind::Other,
    {
        match self {
            Error::NotAligned => ErrorKind::NotAligned,
            Error::OutOfBounds => ErrorKind::OutOfBounds,
            _ => ErrorKind::Other,
        }
    }
}

/// Low level driver for the W25Q256JV flash memory chip.
///
/// Owns the bus handle and the two control-pin handles exclusively; no other
/// component may issue bus transactions while the driver holds them.
pub struct W25q256jv<SPI, HOLD, WP> {
    spi: SPI,
    hold: HOLD,
    wp: WP,
    verify: bool,
}

} // verus!
