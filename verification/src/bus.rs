//! The capability traits the driver is written against.
//!
//! [`FlashBus`] stands for the SPI bus with the flash chip behind it.  An
//! implementation is a pure transport: it ships the framed bytes it is given
//! and hands back what the chip answers, without any chip knowledge of its
//! own.  Each method's contract states how the chip, as this driver models
//! it, reacts to the transaction: what happens to the memory array, the busy
//! flag, the write-enable latch, and the addressing mode.  The contracts are
//! the driver's trust boundary: they hold of a real chip exactly as far as
//! the chip follows its datasheet and the implementation ships the bytes
//! unchanged.
//!
//! The spec functions of the traits are the ghost model of the chip.  They
//! carry default bodies that say nothing (`arbitrary`), so an implementation
//! outside the verified world does not have to mention them; verified code
//! is generic over the implementation and so never relies on those bodies.
//!
//! [`ControlPin`] stands for one chip-control pin (hold or write-protect).

use vstd::prelude::*;

use crate::model::{erased_byte, programmed_byte, spec_erased, spec_program};
use crate::{
    frame_address, BLOCK_32K_SIZE, BLOCK_64K_SIZE, CAPACITY, CMD_BLOCK_ERASE_32K,
    CMD_BLOCK_ERASE_64K_4BA, CMD_CHIP_ERASE, CMD_ENABLE_RESET, CMD_ENTER_4BYTE_MODE,
    CMD_EXIT_4BYTE_MODE, CMD_PAGE_PROGRAM_4BA, CMD_READ_DATA_4BA, CMD_READ_STATUS_1,
    CMD_RESET_DEVICE, CMD_SECTOR_ERASE_4BA, CMD_WRITE_ENABLE, PAGE_SIZE, SECTOR_SIZE,
};

verus! {

/// The SPI bus with the W25Q256JV chip behind it.
///
/// The spec functions are the driver's model of the chip: the memory array
/// (through [`mem_of`]), the busy flag, the write-enable latch, and whether
/// the chip is in 4-byte address mode.  `busy_polls` bounds how many more
/// status polls can still report busy; that the bound exists is the
/// driver's liveness assumption that the chip completes every operation in
/// finite time.
pub trait FlashBus: Sized {
    /// The transport's own error type.
    type BusError;

    /// The chip's byte at address `i`.
    open spec fn byte_at(&self, i: int) -> u8 {
        arbitrary()
    }

    /// Whether the chip is still completing an internal operation.
    open spec fn busy(&self) -> bool {
        arbitrary()
    }

    /// Whether the write-enable latch is set, as an idle chip reports it.
    /// The model clears the latch at the moment a mutating command is
    /// issued, where the hardware clears it when that command completes;
    /// the two agree whenever the chip reports not-busy, which is the only
    /// time the driver reads the latch.
    open spec fn write_latch(&self) -> bool {
        arbitrary()
    }

    /// Whether the chip is in 4-byte address mode.
    open spec fn four_byte_mode(&self) -> bool {
        arbitrary()
    }

    /// How many more status polls can still report busy.
    open spec fn busy_polls(&self) -> nat {
        arbitrary()
    }

    /// One status-poll transaction: ship the opcode, read one byte back.
    /// The returned byte always reports busy in bit 0; once the chip is
    /// idle, bit 1 reports the write-enable latch.  While an internal
    /// operation runs the chip still reports the latch of the command in
    /// flight, which the model already carries cleared, so bit 1 is tied to
    /// the model only on an idle chip.  The status opcode is read-only:
    /// succeed or fail, it changes nothing but the busy flag, which can
    /// only clear, never appear.
    fn transfer_status(&mut self, cmd: &[u8; 1]) -> (r: Result<u8, Self::BusError>)
        requires
            cmd@[0] == CMD_READ_STATUS_1,
        ensures
            forall|i: int| final(self).byte_at(i) == old(self).byte_at(i),
            final(self).write_latch() == old(self).write_latch(),
            final(self).four_byte_mode() == old(self).four_byte_mode(),
            final(self).busy() ==> old(self).busy(),
            r matches Ok(s) ==> {
                &&& (s & 0x01 != 0) == final(self).busy()
                &&& (!final(self).busy() ==> (s & 0x02 != 0) == final(self).write_latch())
                &&& (final(self).busy() ==> final(self).busy_polls() < old(self).busy_polls())
            },
    ;

    /// Ship the write-enable opcode.  The chip is asked to set the latch;
    /// whether it did must be confirmed by a status read, so nothing is
    /// stated about the latch here.
    fn send_write_enable(&mut self, cmd: &[u8; 1]) -> (r: Result<(), Self::BusError>)
        requires
            cmd@[0] == CMD_WRITE_ENABLE,
        ensures
            r matches Ok(()) ==> {
                &&& forall|i: int| final(self).byte_at(i) == old(self).byte_at(i)
                &&& final(self).busy() == old(self).busy()
                &&& final(self).four_byte_mode() == old(self).four_byte_mode()
                &&& final(self).busy_polls() == old(self).busy_polls()
            },
    ;

    /// Ship the enter-4-byte-address-mode opcode.
    fn send_enter_four_byte_mode(&mut self, cmd: &[u8; 1]) -> (r: Result<(), Self::BusError>)
        requires
            cmd@[0] == CMD_ENTER_4BYTE_MODE,
        ensures
            r matches Ok(()) ==> {
                &&& forall|i: int| final(self).byte_at(i) == old(self).byte_at(i)
                &&& final(self).busy() == old(self).busy()
                &&& final(self).write_latch() == old(self).write_latch()
                &&& final(self).four_byte_mode()
                &&& final(self).busy_polls() == old(self).busy_polls()
            },
    ;

    /// Ship the exit-4-byte-address-mode opcode.
    fn send_exit_four_byte_mode(&mut self, cmd: &[u8; 1]) -> (r: Result<(), Self::BusError>)
        requires
            cmd@[0] == CMD_EXIT_4BYTE_MODE,
        ensures
            r matches Ok(()) ==> {
                &&& forall|i: int| final(self).byte_at(i) == old(self).byte_at(i)
                &&& final(self).busy() == old(self).busy()
                &&& final(self).write_latch() == old(self).write_latch()
                &&& !final(self).four_byte_mode()
                &&& final(self).busy_polls() == old(self).busy_polls()
            },
    ;

    /// Ship the reset pair: reset-device and enable-reset, one transaction
    /// each.  The chip accepts the pair in either order; issuing it while an
    /// operation is in flight can corrupt data, so that is excluded here.
    fn send_reset(&mut self, reset: &[u8; 1], enable: &[u8; 1]) -> (r: Result<
        (),
        Self::BusError,
    >)
        requires
            reset@[0] == CMD_RESET_DEVICE,
            enable@[0] == CMD_ENABLE_RESET,
            !old(self).busy(),
        ensures
            r matches Ok(()) ==> {
                &&& forall|i: int| final(self).byte_at(i) == old(self).byte_at(i)
                &&& !final(self).busy()
                &&& !final(self).write_latch()
                &&& !final(self).four_byte_mode()
            },
    ;

    /// One read transaction: ship the framed read command, then stream
    /// `buf.len()` bytes back into `buf`.  While the chip is not busy the
    /// bytes are the memory array at the framed address; a busy chip's
    /// answer is unspecified.  The read opcode is read-only: succeed or
    /// fail, the memory array, the latch, and the address mode are
    /// untouched, and the busy flag can only clear.
    fn transfer_read(&mut self, cmd: &[u8; 5], buf: &mut Vec<u8>) -> (r: Result<
        (),
        Self::BusError,
    >)
        requires
            cmd@[0] == CMD_READ_DATA_4BA,
            frame_address(cmd@) + old(buf)@.len() <= CAPACITY,
        ensures
            forall|i: int| final(self).byte_at(i) == old(self).byte_at(i),
            final(self).write_latch() == old(self).write_latch(),
            final(self).four_byte_mode() == old(self).four_byte_mode(),
            final(self).busy() ==> old(self).busy(),
            final(buf)@.len() == old(buf)@.len(),
            r matches Ok(()) ==> {
                &&& final(self).busy() == old(self).busy()
                &&& final(self).busy_polls() == old(self).busy_polls()
                &&& (!old(self).busy() ==> forall|j: int|
                    0 <= j < old(buf)@.len() ==> final(buf)@[j] == old(self).byte_at(
                        frame_address(cmd@) + j,
                    ))
            },
    ;

    /// One page-program transaction: ship the framed command followed by the
    /// data bytes.  The chip clears programmed bits; a busy chip would
    /// silently ignore the command and a clear latch would make it a no-op,
    /// so both are excluded.  A program spanning a page boundary would wrap
    /// inside the page, so that is excluded too.
    fn transfer_page_program(&mut self, cmd: &[u8; 5], data: &[u8]) -> (r: Result<
        (),
        Self::BusError,
    >)
        requires
            cmd@[0] == CMD_PAGE_PROGRAM_4BA,
            !old(self).busy(),
            old(self).write_latch(),
            frame_address(cmd@) + data@.len() <= CAPACITY,
            frame_address(cmd@) % (PAGE_SIZE as int) + data@.len() <= PAGE_SIZE,
        ensures
            r matches Ok(()) ==> {
                &&& forall|i: int| final(self).byte_at(i) == programmed_byte(
                    old(self).byte_at(i),
                    data@,
                    frame_address(cmd@),
                    i,
                )
                &&& !final(self).write_latch()
                &&& final(self).four_byte_mode() == old(self).four_byte_mode()
            },
    ;

    /// Ship a framed 4 KiB sector-erase command.  The erased range reads as
    /// `0xFF` once the chip finishes.
    fn send_sector_erase(&mut self, cmd: &[u8; 5]) -> (r: Result<(), Self::BusError>)
        requires
            cmd@[0] == CMD_SECTOR_ERASE_4BA,
            !old(self).busy(),
            old(self).write_latch(),
            frame_address(cmd@) % (SECTOR_SIZE as int) == 0,
            frame_address(cmd@) + SECTOR_SIZE <= CAPACITY,
        ensures
            r matches Ok(()) ==> {
                &&& forall|i: int| final(self).byte_at(i) == erased_byte(
                    old(self).byte_at(i),
                    frame_address(cmd@),
                    SECTOR_SIZE as int,
                    i,
                )
                &&& !final(self).write_latch()
                &&& final(self).four_byte_mode() == old(self).four_byte_mode()
            },
    ;

    /// Ship a framed 32 KiB block-erase command.  This opcode honours the
    /// chip's current address mode, so 4-byte mode is required for the
    /// 4-byte frame to be understood.
    fn send_block_erase_32k(&mut self, cmd: &[u8; 5]) -> (r: Result<(), Self::BusError>)
        requires
            cmd@[0] == CMD_BLOCK_ERASE_32K,
            !old(self).busy(),
            old(self).write_latch(),
            old(self).four_byte_mode(),
            frame_address(cmd@) % (BLOCK_32K_SIZE as int) == 0,
            frame_address(cmd@) + BLOCK_32K_SIZE <= CAPACITY,
        ensures
            r matches Ok(()) ==> {
                &&& forall|i: int| final(self).byte_at(i) == erased_byte(
                    old(self).byte_at(i),
                    frame_address(cmd@),
                    BLOCK_32K_SIZE as int,
                    i,
                )
                &&& !final(self).write_latch()
                &&& final(self).four_byte_mode() == old(self).four_byte_mode()
            },
    ;

    /// Ship a framed 64 KiB block-erase command.
    fn send_block_erase_64k(&mut self, cmd: &[u8; 5]) -> (r: Result<(), Self::BusError>)
        requires
            cmd@[0] == CMD_BLOCK_ERASE_64K_4BA,
            !old(self).busy(),
            old(self).write_latch(),
            frame_address(cmd@) % (BLOCK_64K_SIZE as int) == 0,
            frame_address(cmd@) + BLOCK_64K_SIZE <= CAPACITY,
        ensures
            r matches Ok(()) ==> {
                &&& forall|i: int| final(self).byte_at(i) == erased_byte(
                    old(self).byte_at(i),
                    frame_address(cmd@),
                    BLOCK_64K_SIZE as int,
                    i,
                )
                &&& !final(self).write_latch()
                &&& final(self).four_byte_mode() == old(self).four_byte_mode()
            },
    ;

    /// Ship the whole-chip-erase opcode.  The whole array reads as `0xFF`
    /// once the chip finishes.
    fn send_chip_erase(&mut self, cmd: &[u8; 1]) -> (r: Result<(), Self::BusError>)
        requires
            cmd@[0] == CMD_CHIP_ERASE,
            !old(self).busy(),
            old(self).write_latch(),
        ensures
            r matches Ok(()) ==> {
                &&& forall|i: int| final(self).byte_at(i) == erased_byte(
                    old(self).byte_at(i),
                    0,
                    CAPACITY as int,
                    i,
                )
                &&& !final(self).write_latch()
                &&& final(self).four_byte_mode() == old(self).four_byte_mode()
            },
    ;
}

/// The memory array of the chip behind bus `b`: one byte per address,
/// CAPACITY bytes in all.
pub open spec fn mem_of<B: FlashBus>(b: B) -> Seq<u8> {
    Seq::new(CAPACITY as nat, |i: int| b.byte_at(i))
}

/// Lifts byte-wise preservation to the whole memory array.
pub proof fn lemma_mem_unchanged<B: FlashBus>(pre: B, post: B)
    requires
        forall|i: int| post.byte_at(i) == pre.byte_at(i),
    ensures
        mem_of(post) == mem_of(pre),
{
    assert(mem_of(post) =~= mem_of(pre));
}

/// Lifts the byte-wise program effect to the whole memory array.
pub proof fn lemma_mem_programmed<B: FlashBus>(pre: B, post: B, addr: int, data: Seq<u8>)
    requires
        0 <= addr,
        addr + data.len() <= CAPACITY,
        forall|i: int| post.byte_at(i) == programmed_byte(pre.byte_at(i), data, addr, i),
    ensures
        mem_of(post) == spec_program(mem_of(pre), addr, data),
{
    assert(mem_of(post) =~= spec_program(mem_of(pre), addr, data));
}

/// Lifts the byte-wise erase effect to the whole memory array.
pub proof fn lemma_mem_erased<B: FlashBus>(pre: B, post: B, addr: int, len: int)
    requires
        0 <= addr,
        0 <= len,
        addr + len <= CAPACITY,
        forall|i: int| post.byte_at(i) == erased_byte(pre.byte_at(i), addr, len, i),
    ensures
        mem_of(post) == spec_erased(mem_of(pre), addr, len),
{
    assert(mem_of(post) =~= spec_erased(mem_of(pre), addr, len));
}

/// One chip-control pin (hold or write-protect), driven high or low.
pub trait ControlPin: Sized {
    /// The pin handle's own error type.
    type PinError;

    /// Whether the pin is currently driven high.
    open spec fn is_high(&self) -> bool {
        arbitrary()
    }

    /// Drive the pin high.
    fn set_high(&mut self) -> (r: Result<(), Self::PinError>)
        ensures
            r matches Ok(()) ==> final(self).is_high(),
    ;

    /// Drive the pin high (`true`) or low (`false`).
    fn set_state(&mut self, value: bool) -> (r: Result<(), Self::PinError>)
        ensures
            r matches Ok(()) ==> final(self).is_high() == value,
    ;
}

} // verus!
