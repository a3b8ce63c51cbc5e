//! The flash command engine: status protocol, write-enable handshake,
//! read, chunked page programming, the erase family, readback
//! verification, and reset.

use vstd::prelude::*;

use vstd::arithmetic::div_mod::{lemma_fundamental_div_mod, lemma_mod_multiples_basic};

use crate::bus::{
    lemma_mem_erased, lemma_mem_programmed, lemma_mem_unchanged, mem_of, ControlPin, FlashBus,
};
use crate::model::{lemma_erase_concat, lemma_program_concat, spec_erased, spec_program};
use crate::{
    command_and_address, Error, W25q256jv, BLOCK_32K_SIZE, BLOCK_64K_SIZE, CAPACITY,
    CMD_BLOCK_ERASE_32K, CMD_BLOCK_ERASE_64K_4BA, CMD_CHIP_ERASE, CMD_ENABLE_RESET,
    CMD_ENTER_4BYTE_MODE, CMD_EXIT_4BYTE_MODE, CMD_PAGE_PROGRAM_4BA, CMD_READ_DATA_4BA,
    CMD_READ_STATUS_1, CMD_RESET_DEVICE, CMD_SECTOR_ERASE_4BA, CMD_WRITE_ENABLE, N_BLOCKS_32K,
    N_BLOCKS_64K, N_SECTORS, PAGE_SIZE, SECTOR_SIZE,
};

verus! {

impl<SPI, HOLD, WP> W25q256jv<SPI, HOLD, WP> {
    /// Get the capacity of the flash chip in bytes.
    pub fn capacity() -> (r: usize)
        ensures
            r == CAPACITY,
    {
        CAPACITY as usize
    }
}

impl<SPI: FlashBus, HOLD: ControlPin, WP: ControlPin<PinError = HOLD::PinError>> W25q256jv<
    SPI,
    HOLD,
    WP,
> {
    /// The chip's memory array, as the driver models it.
    pub closed spec fn chip_mem(&self) -> Seq<u8> {
        mem_of(self.spi)
    }

    /// The modeled memory array always spans the whole chip.
    pub proof fn chip_mem_len(&self)
        ensures
            self.chip_mem().len() == CAPACITY,
    {
    }

    /// Whether the chip is still completing an internal operation.
    pub closed spec fn chip_busy(&self) -> bool {
        self.spi.busy()
    }

    /// Whether the chip's write-enable latch is set.
    pub closed spec fn chip_write_latch(&self) -> bool {
        self.spi.write_latch()
    }

    /// Whether the chip is in 4-byte address mode.
    pub closed spec fn chip_four_byte_mode(&self) -> bool {
        self.spi.four_byte_mode()
    }

    /// How many more status polls can still report busy.
    pub closed spec fn chip_busy_polls(&self) -> nat {
        self.spi.busy_polls()
    }

    /// Whether readback verification after programs and erases is enabled.
    pub closed spec fn readback_enabled(&self) -> bool {
        self.verify
    }

    /// The bus handle the driver owns.
    pub closed spec fn bus(&self) -> SPI {
        self.spi
    }

    /// The hold-pin handle the driver owns.
    pub closed spec fn hold_pin(&self) -> HOLD {
        self.hold
    }

    /// The write-protect-pin handle the driver owns.
    pub closed spec fn wp_pin(&self) -> WP {
        self.wp
    }

    /// The pin handles and the readback switch are as they were.
    pub open spec fn same_config(&self, other: &Self) -> bool {
        &&& self.hold_pin() == other.hold_pin()
        &&& self.wp_pin() == other.wp_pin()
        &&& self.readback_enabled() == other.readback_enabled()
    }

    /// Constructs the driver and raises the hold and write-protect pins,
    /// which the chip requires high before it accepts commands.
    pub fn new(spi: SPI, hold: HOLD, wp: WP) -> (r: Result<Self, Error<SPI::BusError, HOLD::PinError>>)
        ensures
            r matches Ok(flash) ==> {
                &&& flash.bus() == spi
                &&& flash.hold_pin().is_high()
                &&& flash.wp_pin().is_high()
                &&& !flash.readback_enabled()
            },
            r matches Err(e) ==> e matches Error::PinError(_),
    {
        let mut flash = Self { spi, hold, wp, verify: false };

        match flash.hold.set_high() {
            Ok(()) => {},
            Err(e) => {
                return Err(Error::PinError(e));
            },
        }
        match flash.wp.set_high() {
            Ok(()) => {},
            Err(e) => {
                return Err(Error::PinError(e));
            },
        }

        Ok(flash)
    }

    /// Switches readback verification after programs and erases on or off.
    /// It is off when the driver is constructed: an extra full read pass per
    /// mutating operation is an explicit opt-in.
    pub fn set_readback_check(&mut self, enabled: bool)
        ensures
            final(self).readback_enabled() == enabled,
            final(self).bus() == old(self).bus(),
            final(self).hold_pin() == old(self).hold_pin(),
            final(self).wp_pin() == old(self).wp_pin(),
    {
        self.verify = enabled;
    }

    /// Set the hold pin state.
    ///
    /// The driver doesn't do anything with this pin. When using the chip,
    /// make sure the hold pin is not asserted; by default, this means the
    /// pin needs to be high (true).
    ///
    /// This function sets the pin directly and can cause the chip to not work.
    pub fn set_hold(&mut self, value: bool) -> (r: Result<(), Error<SPI::BusError, HOLD::PinError>>)
        ensures
            final(self).bus() == old(self).bus(),
            final(self).wp_pin() == old(self).wp_pin(),
            final(self).readback_enabled() == old(self).readback_enabled(),
            r matches Ok(()) ==> final(self).hold_pin().is_high() == value,
            r matches Err(e) ==> e matches Error::PinError(_),
    {
        match self.hold.set_state(value) {
            Ok(()) => Ok(()),
            Err(e) => Err(Error::PinError(e)),
        }
    }

    /// Set the write protect pin state.
    ///
    /// The driver doesn't do anything with this pin. When using the chip,
    /// make sure the write-protect pin is not asserted; by default, this
    /// means the pin needs to be high (true).
    ///
    /// This function sets the pin directly and can cause the chip to not work.
    pub fn set_wp(&mut self, value: bool) -> (r: Result<(), Error<SPI::BusError, HOLD::PinError>>)
        ensures
            final(self).bus() == old(self).bus(),
            final(self).hold_pin() == old(self).hold_pin(),
            final(self).readback_enabled() == old(self).readback_enabled(),
            r matches Ok(()) ==> final(self).wp_pin().is_high() == value,
            r matches Err(e) ==> e matches Error::PinError(_),
    {
        match self.wp.set_state(value) {
            Ok(()) => Ok(()),
            Err(e) => Err(Error::PinError(e)),
        }
    }

    /// Releases the SPI, HOLD and WP pins from the driver.
    pub fn release(self) -> (r: (SPI, HOLD, WP))
        ensures
            r.0 == self.bus(),
            r.1 == self.hold_pin(),
            r.2 == self.wp_pin(),
    {
        (self.spi, self.hold, self.wp)
    }

    /// Reads status register 1 of the flash chip.
    fn read_status_register(&mut self) -> (r: Result<u8, Error<SPI::BusError, HOLD::PinError>>)
        ensures
            old(self).same_config(final(self)),
            final(self).chip_mem() == old(self).chip_mem(),
            final(self).chip_write_latch() == old(self).chip_write_latch(),
            final(self).chip_four_byte_mode() == old(self).chip_four_byte_mode(),
            final(self).chip_busy() ==> old(self).chip_busy(),
            r matches Ok(s) ==> {
                &&& (s & 0x01 != 0) == final(self).chip_busy()
                &&& (!final(self).chip_busy() ==> (s & 0x02 != 0)
                    == final(self).chip_write_latch())
                &&& (final(self).chip_busy() ==> final(self).chip_busy_polls() < old(
                    self,
                ).chip_busy_polls())
            },
            r matches Err(e) ==> e matches Error::SpiError(_),
    {
        let ghost b0 = self.spi;
        let r = self.spi.transfer_status(&[CMD_READ_STATUS_1]);
        proof {
            lemma_mem_unchanged(b0, self.spi);
        }
        match r {
            Ok(s) => Ok(s),
            Err(e) => Err(Error::SpiError(e)),
        }
    }

    /// The flash chip is unable to perform new commands while it is still
    /// working on a previous one. Especially erases take a long time.
    /// This function returns true while the chip is unable to respond to
    /// commands (with the exception of the busy command).
    pub fn busy(&mut self) -> (r: Result<bool, Error<SPI::BusError, HOLD::PinError>>)
        ensures
            old(self).same_config(final(self)),
            final(self).chip_mem() == old(self).chip_mem(),
            final(self).chip_write_latch() == old(self).chip_write_latch(),
            final(self).chip_four_byte_mode() == old(self).chip_four_byte_mode(),
            final(self).chip_busy() ==> old(self).chip_busy(),
            r matches Ok(b) ==> {
                &&& b == final(self).chip_busy()
                &&& (final(self).chip_busy() ==> final(self).chip_busy_polls() < old(
                    self,
                ).chip_busy_polls())
            },
            r matches Err(e) ==> e matches Error::SpiError(_),
    {
        let s = self.read_status_register()?;
        Ok(s & 0x01 != 0)
    }

    /// The flash chip must be write-enabled for write and erase operations
    /// to work. This function returns true while the write-enable flag is
    /// set.  The answer speaks for the chip's settled state only when the
    /// chip is idle: during an internal operation the chip still reports
    /// the latch of the command in flight.
    pub fn write_enabled(&mut self) -> (r: Result<bool, Error<SPI::BusError, HOLD::PinError>>)
        ensures
            old(self).same_config(final(self)),
            final(self).chip_mem() == old(self).chip_mem(),
            final(self).chip_write_latch() == old(self).chip_write_latch(),
            final(self).chip_four_byte_mode() == old(self).chip_four_byte_mode(),
            final(self).chip_busy() ==> old(self).chip_busy(),
            r matches Ok(b) ==> (!final(self).chip_busy() ==> b
                == final(self).chip_write_latch()),
            r matches Err(e) ==> e matches Error::SpiError(_),
    {
        let s = self.read_status_register()?;
        Ok(s & 0x02 != 0)
    }

    /// Polls the status register until the busy bit clears.  This is the
    /// only place execution blocks for chip-internal latency.
    #[verifier::loop_isolation(false)]
    fn wait_while_busy(&mut self) -> (r: Result<(), Error<SPI::BusError, HOLD::PinError>>)
        ensures
            old(self).same_config(final(self)),
            final(self).chip_mem() == old(self).chip_mem(),
            final(self).chip_write_latch() == old(self).chip_write_latch(),
            final(self).chip_four_byte_mode() == old(self).chip_four_byte_mode(),
            final(self).chip_busy() ==> old(self).chip_busy(),
            r matches Ok(()) ==> !final(self).chip_busy(),
            r matches Err(e) ==> e matches Error::SpiError(_),
    {
        loop
            invariant
                old(self).same_config(self),
                self.chip_mem() == old(self).chip_mem(),
                self.chip_write_latch() == old(self).chip_write_latch(),
                self.chip_four_byte_mode() == old(self).chip_four_byte_mode(),
                self.chip_busy() ==> old(self).chip_busy(),
            decreases self.chip_busy_polls(),
        {
            let b = self.busy()?;
            if !b {
                return Ok(());
            }
        }
    }

    /// Sets the enable_write flag on the flash chip to true, then confirms
    /// it by re-reading the status register.  Writes and erases to the chip
    /// only have effect while this flag is set, and the chip clears it after
    /// each such command.  A latch that did not set signals a non-responsive
    /// or non-compliant chip and is reported as a fatal error, not retried.
    fn enable_write(&mut self) -> (r: Result<(), Error<SPI::BusError, HOLD::PinError>>)
        requires
            !old(self).chip_busy(),
        ensures
            old(self).same_config(final(self)),
            r matches Ok(()) ==> {
                &&& final(self).chip_mem() == old(self).chip_mem()
                &&& final(self).chip_four_byte_mode() == old(self).chip_four_byte_mode()
                &&& !final(self).chip_busy()
                &&& final(self).chip_write_latch()
            },
            r matches Err(e) ==> (e matches Error::SpiError(_) || e matches Error::WriteEnableFail),
            r matches Err(Error::WriteEnableFail) ==> {
                &&& final(self).chip_mem() == old(self).chip_mem()
                &&& final(self).chip_four_byte_mode() == old(self).chip_four_byte_mode()
                &&& !final(self).chip_busy()
                &&& !final(self).chip_write_latch()
            },
    {
        let ghost b0 = self.spi;
        match self.spi.send_write_enable(&[CMD_WRITE_ENABLE]) {
            Ok(()) => {
                proof {
                    lemma_mem_unchanged(b0, self.spi);
                }
            },
            Err(e) => {
                return Err(Error::SpiError(e));
            },
        }

        let enabled = self.write_enabled()?;
        if !enabled {
            return Err(Error::WriteEnableFail);
        }

        Ok(())
    }

    /// The flash chip will enter into 4-byte address mode. The factory
    /// default is 3-byte address mode. Note that the chip supports dedicated
    /// 4-byte address mode commands, which take 4-byte addresses regardless
    /// of the address mode.
    fn enter_4_byte_address_mode(&mut self) -> (r: Result<(), Error<SPI::BusError, HOLD::PinError>>)
        ensures
            old(self).same_config(final(self)),
            r matches Ok(()) ==> {
                &&& final(self).chip_mem() == old(self).chip_mem()
                &&& final(self).chip_busy() == old(self).chip_busy()
                &&& final(self).chip_write_latch() == old(self).chip_write_latch()
                &&& final(self).chip_busy_polls() == old(self).chip_busy_polls()
                &&& final(self).chip_four_byte_mode()
            },
            r matches Err(e) ==> e matches Error::SpiError(_),
    {
        let ghost b0 = self.spi;
        match self.spi.send_enter_four_byte_mode(&[CMD_ENTER_4BYTE_MODE]) {
            Ok(()) => {
                proof {
                    lemma_mem_unchanged(b0, self.spi);
                }
                Ok(())
            },
            Err(e) => Err(Error::SpiError(e)),
        }
    }

    /// The flash chip will exit 4-byte address mode. The factory default is
    /// 3-byte address mode.  The driver itself never needs this: no command
    /// it issues requires 3-byte mode.
    #[allow(dead_code)]
    fn exit_4_byte_address_mode(&mut self) -> (r: Result<(), Error<SPI::BusError, HOLD::PinError>>)
        ensures
            old(self).same_config(final(self)),
            r matches Ok(()) ==> {
                &&& final(self).chip_mem() == old(self).chip_mem()
                &&& final(self).chip_busy() == old(self).chip_busy()
                &&& final(self).chip_write_latch() == old(self).chip_write_latch()
                &&& final(self).chip_busy_polls() == old(self).chip_busy_polls()
                &&& !final(self).chip_four_byte_mode()
            },
            r matches Err(e) ==> e matches Error::SpiError(_),
    {
        let ghost b0 = self.spi;
        match self.spi.send_exit_four_byte_mode(&[CMD_EXIT_4BYTE_MODE]) {
            Ok(()) => {
                proof {
                    lemma_mem_unchanged(b0, self.spi);
                }
                Ok(())
            },
            Err(e) => Err(Error::SpiError(e)),
        }
    }

    /// Resets the chip by issuing the reset-device and enable-reset pair.
    ///
    /// Data corruption can happen if there is an ongoing or suspended
    /// internal erase or program operation, so the caller must ensure no
    /// operation is outstanding; that is what the precondition states.
    pub fn reset(&mut self) -> (r: Result<(), Error<SPI::BusError, HOLD::PinError>>)
        requires
            !old(self).chip_busy(),
        ensures
            old(self).same_config(final(self)),
            r matches Ok(()) ==> {
                &&& final(self).chip_mem() == old(self).chip_mem()
                &&& !final(self).chip_busy()
                &&& !final(self).chip_write_latch()
                &&& !final(self).chip_four_byte_mode()
            },
            r matches Err(e) ==> e matches Error::SpiError(_),
    {
        let ghost b0 = self.spi;
        match self.spi.send_reset(&[CMD_RESET_DEVICE], &[CMD_ENABLE_RESET]) {
            Ok(()) => {
                proof {
                    lemma_mem_unchanged(b0, self.spi);
                }
                Ok(())
            },
            Err(e) => Err(Error::SpiError(e)),
        }
    }

    /// Reads a chunk of bytes from the flash chip.
    /// The number of bytes read is equal to the length of the buf vector.
    /// The first byte is read from the provided address. This address is
    /// then incremented for each following byte.
    ///
    /// While the chip is not busy, the bytes are exactly the chip's memory
    /// at that range; a read issued while the chip is still completing an
    /// operation returns unspecified data.
    ///
    /// # Arguments
    /// * `address` - Address where the first byte of the buf will be read.
    /// * `buf` - Vector that is going to be filled with the read bytes.
    pub fn read(&mut self, address: u32, buf: &mut Vec<u8>) -> (r: Result<
        (),
        Error<SPI::BusError, HOLD::PinError>,
    >)
        ensures
            old(self).same_config(final(self)),
            final(buf)@.len() == old(buf)@.len(),
            final(self).chip_mem() == old(self).chip_mem(),
            final(self).chip_write_latch() == old(self).chip_write_latch(),
            final(self).chip_four_byte_mode() == old(self).chip_four_byte_mode(),
            final(self).chip_busy() ==> old(self).chip_busy(),
            address + old(buf)@.len() > CAPACITY ==> {
                &&& r matches Err(Error::OutOfBounds)
                &&& *final(self) == *old(self)
                &&& *final(buf) == *old(buf)
            },
            r matches Err(Error::OutOfBounds) ==> address + old(buf)@.len() > CAPACITY,
            r matches Ok(()) ==> {
                &&& address + old(buf)@.len() <= CAPACITY
                &&& final(self).chip_busy() == old(self).chip_busy()
                &&& final(self).chip_busy_polls() == old(self).chip_busy_polls()
                &&& (!old(self).chip_busy() ==> final(buf)@ == old(self).chip_mem().subrange(
                    address as int,
                    address + old(buf)@.len(),
                ))
            },
            r matches Err(e) ==> (e matches Error::SpiError(_) || e matches Error::OutOfBounds),
    {
        if buf.len() as u64 > CAPACITY as u64 || address as u64 > CAPACITY as u64 - buf.len()
            as u64 {
            return Err(Error::OutOfBounds);
        }

        let cmd = command_and_address(CMD_READ_DATA_4BA, address);
        let ghost b0 = self.spi;
        let ghost len0 = buf@.len();
        let r = self.spi.transfer_read(&cmd, buf);
        proof {
            lemma_mem_unchanged(b0, self.spi);
        }
        match r {
            Ok(()) => {
                proof {
                    if !b0.busy() {
                        assert(buf@ =~= mem_of(b0).subrange(address as int, address + len0));
                    }
                }
                Ok(())
            },
            Err(e) => Err(Error::SpiError(e)),
        }
    }

    /// Checks that the data at the provided address matches the provided
    /// slice, reading it back in 64-byte windows.
    #[verifier::loop_isolation(false)]
    fn readback_check(&mut self, address: u32, data: &[u8]) -> (r: Result<
        (),
        Error<SPI::BusError, HOLD::PinError>,
    >)
        requires
            !old(self).chip_busy(),
            address + data@.len() <= CAPACITY,
        ensures
            old(self).same_config(final(self)),
            final(self).chip_mem() == old(self).chip_mem(),
            !final(self).chip_busy(),
            final(self).chip_write_latch() == old(self).chip_write_latch(),
            final(self).chip_four_byte_mode() == old(self).chip_four_byte_mode(),
            r matches Ok(()) ==> final(self).chip_mem().subrange(
                address as int,
                address + data@.len(),
            ) == data@,
            r matches Err(Error::ReadbackFail) ==> old(self).chip_mem().subrange(
                address as int,
                address + data@.len(),
            ) != data@,
            r matches Err(e) ==> (e matches Error::SpiError(_) || e matches Error::ReadbackFail),
    {
        let mut offset: usize = 0;
        while offset < data.len()
            invariant
                offset <= data@.len(),
                self.chip_mem().len() == CAPACITY,
                old(self).same_config(self),
                self.chip_mem() == old(self).chip_mem(),
                !self.chip_busy(),
                self.chip_write_latch() == old(self).chip_write_latch(),
                self.chip_four_byte_mode() == old(self).chip_four_byte_mode(),
                forall|j: int| 0 <= j < offset ==> self.chip_mem()[address + j] == data@[j],
            decreases data@.len() - offset,
        {
            let clen: usize = if data.len() - offset < 64 {
                data.len() - offset
            } else {
                64
            };
            let mut buf = zero_vec(clen);
            match self.read(address + offset as u32, &mut buf) {
                Ok(()) => {},
                Err(e) => {
                    return Err(e);
                },
            }

            let mut j: usize = 0;
            while j < clen
                invariant
                    j <= clen,
                    buf@.len() == clen,
                    offset + clen <= data@.len(),
                    forall|jj: int| 0 <= jj < j ==> buf@[jj] == data@[offset + jj],
                decreases clen - j,
            {
                if buf[j] != data[offset + j] {
                    proof {
                        assert(buf@[j as int] == self.chip_mem().subrange(
                            address + offset,
                            address + offset + clen,
                        )[j as int]);
                        assert(self.chip_mem()[address + offset + j] != data@[offset + j]);
                        assert(self.chip_mem().subrange(address as int, address + data@.len())[
                            offset + j] != data@[offset + j]);
                    }
                    return Err(Error::ReadbackFail);
                }
                j += 1;
            }

            proof {
                assert forall|jj: int| 0 <= jj < offset + clen implies self.chip_mem()[address
                    + jj] == data@[jj] by {
                    if offset <= jj {
                        assert(buf@[jj - offset] == data@[jj]);
                        assert(buf@[jj - offset] == self.chip_mem().subrange(
                            address + offset,
                            address + offset + clen,
                        )[jj - offset]);
                    }
                }
            }
            offset += clen;
        }

        proof {
            assert(self.chip_mem().subrange(address as int, address + data@.len()) =~= data@);
        }
        Ok(())
    }

    /// Executes a page write operation on the flash chip.
    ///
    /// A page program that spans a page boundary silently wraps within the
    /// page inside the chip and corrupts data, so such a chunk is rejected
    /// rather than attempted.
    ///
    /// This function assumes that there are no ongoing operations on the
    /// chip — the precondition states it — because the chip silently
    /// ignores commands while it is busy.
    pub fn write_page(&mut self, address: u32, buf: &[u8]) -> (r: Result<
        (),
        Error<SPI::BusError, HOLD::PinError>,
    >)
        requires
            !old(self).chip_busy(),
        ensures
            old(self).same_config(final(self)),
            ((address % PAGE_SIZE) + buf@.len() > PAGE_SIZE || address + buf@.len() > CAPACITY)
                ==> {
                &&& r matches Err(Error::OutOfBounds)
                &&& *final(self) == *old(self)
            },
            r matches Err(Error::OutOfBounds) ==> ((address % PAGE_SIZE) + buf@.len() > PAGE_SIZE
                || address + buf@.len() > CAPACITY),
            r matches Ok(()) ==> {
                &&& (address % PAGE_SIZE) + buf@.len() <= PAGE_SIZE
                &&& address + buf@.len() <= CAPACITY
                &&& final(self).chip_mem() == spec_program(
                    old(self).chip_mem(),
                    address as int,
                    buf@,
                )
                &&& !final(self).chip_busy()
                &&& final(self).chip_four_byte_mode() == old(self).chip_four_byte_mode()
                &&& (old(self).readback_enabled() ==> final(self).chip_mem().subrange(
                    address as int,
                    address + buf@.len(),
                ) == buf@)
            },
            r matches Err(Error::WriteEnableFail) ==> {
                &&& final(self).chip_mem() == old(self).chip_mem()
                &&& !final(self).chip_write_latch()
                &&& !final(self).chip_busy()
            },
            r matches Err(Error::ReadbackFail) ==> {
                &&& old(self).readback_enabled()
                &&& final(self).chip_mem() == spec_program(
                    old(self).chip_mem(),
                    address as int,
                    buf@,
                )
                &&& final(self).chip_mem().subrange(address as int, address + buf@.len())
                    != buf@
                &&& !final(self).chip_busy()
            },
            r matches Err(e) ==> !(e matches Error::NotAligned) && !(e matches Error::PinError(_)),
    {
        // We don't support wrapping writes. They're scary.
        if buf.len() > PAGE_SIZE as usize || (address % PAGE_SIZE) + buf.len() as u32 > PAGE_SIZE {
            return Err(Error::OutOfBounds);
        }
        if buf.len() as u64 > CAPACITY as u64 || address as u64 > CAPACITY as u64 - buf.len()
            as u64 {
            return Err(Error::OutOfBounds);
        }

        self.enable_write()?;

        let cmd = command_and_address(CMD_PAGE_PROGRAM_4BA, address);
        let ghost b0 = self.spi;
        match self.spi.transfer_page_program(&cmd, buf) {
            Ok(()) => {
                proof {
                    lemma_mem_programmed(b0, self.spi, address as int, buf@);
                }
            },
            Err(e) => {
                return Err(Error::SpiError(e));
            },
        }

        // typical 0.7ms, max 3ms
        self.wait_while_busy()?;

        if self.verify {
            self.readback_check(address, buf)?;
        }

        Ok(())
    }

    /// Writes a chunk of bytes to the flash chip.
    /// The first byte is written to the provided address. This address is
    /// then incremented for each following byte.
    ///
    /// This function will wait for any ongoing operations to complete before
    /// starting the write operation, to prevent data corruption.
    ///
    /// As this is a NOR-flash chip, the write operation will only change
    /// bits from 1 to 0: what lands in memory is the bitwise AND of the old
    /// content and the data. It is recommended to erase the sector before
    /// writing to it.
    ///
    /// # Arguments
    /// * `address` - Address where the first byte of the buf will be written.
    /// * `buf` - Slice of bytes that will be written.
    #[verifier::loop_isolation(false)]
    pub fn write(&mut self, address: u32, buf: &[u8]) -> (r: Result<
        (),
        Error<SPI::BusError, HOLD::PinError>,
    >)
        ensures
            old(self).same_config(final(self)),
            address + buf@.len() > CAPACITY ==> {
                &&& r matches Err(Error::OutOfBounds)
                &&& *final(self) == *old(self)
            },
            r matches Err(Error::OutOfBounds) ==> address + buf@.len() > CAPACITY,
            r matches Ok(()) ==> {
                &&& address + buf@.len() <= CAPACITY
                &&& final(self).chip_mem() == spec_program(
                    old(self).chip_mem(),
                    address as int,
                    buf@,
                )
                &&& !final(self).chip_busy()
                &&& final(self).chip_four_byte_mode() == old(self).chip_four_byte_mode()
                &&& (old(self).readback_enabled() ==> final(self).chip_mem().subrange(
                    address as int,
                    address + buf@.len(),
                ) == buf@)
            },
            r matches Err(Error::ReadbackFail) ==> old(self).readback_enabled(),
            r matches Err(Error::WriteEnableFail) ==> !final(self).chip_write_latch()
                && !final(self).chip_busy(),
            r matches Err(Error::ReadbackFail) ==> !final(self).chip_busy(),
            (r matches Err(Error::WriteEnableFail) || r matches Err(Error::ReadbackFail))
                ==> exists|k: int|
                0 <= k <= buf@.len() && final(self).chip_mem() == spec_program(
                    old(self).chip_mem(),
                    address as int,
                    buf@.subrange(0, k),
                ),
            r matches Err(e) ==> !(e matches Error::NotAligned) && !(e matches Error::PinError(_)),
    {
        if buf.len() as u64 > CAPACITY as u64 || address as u64 > CAPACITY as u64 - buf.len()
            as u64 {
            return Err(Error::OutOfBounds);
        }

        // Wait for any ongoing operations to complete
        self.wait_while_busy()?;

        let ghost m0 = self.chip_mem();

        // Write the first chunk, taking into account that the given address
        // might point to a location that is not on a page boundary.
        let head: u32 = PAGE_SIZE - address % PAGE_SIZE;
        let chunk_len: usize = if (head as usize) < buf.len() {
            head as usize
        } else {
            buf.len()
        };
        match self.write_page(address, &buf[0..chunk_len]) {
            Ok(()) => {},
            Err(e) => {
                proof {
                    if (e matches Error::WriteEnableFail) {
                        assert(spec_program(m0, address as int, buf@.subrange(0, 0)) =~= m0);
                        assert(exists|k: int|
                            0 <= k <= buf@.len() && self.chip_mem() == spec_program(
                                m0,
                                address as int,
                                buf@.subrange(0, k),
                            ));
                    }
                    if (e matches Error::ReadbackFail) {
                        assert(self.chip_mem() == spec_program(
                            m0,
                            address as int,
                            buf@.subrange(0, chunk_len as int),
                        ));
                        assert(exists|k: int|
                            0 <= k <= buf@.len() && self.chip_mem() == spec_program(
                                m0,
                                address as int,
                                buf@.subrange(0, k),
                            ));
                    }
                }
                return Err(e);
            },
        }
        proof {
            if chunk_len < buf@.len() {
                lemma_head_chunk_aligns(address as int);
            }
        }

        let mut done: usize = chunk_len;
        while done < buf.len()
            invariant
                done <= buf@.len(),
                self.chip_mem() == spec_program(m0, address as int, buf@.subrange(0, done as int)),
                self.chip_mem().len() == CAPACITY,
                !self.chip_busy(),
                self.chip_four_byte_mode() == old(self).chip_four_byte_mode(),
                old(self).same_config(self),
                done == buf@.len() || (address as int + done) % (PAGE_SIZE as int) == 0,
                self.readback_enabled() ==> self.chip_mem().subrange(
                    address as int,
                    address + done,
                ) == buf@.subrange(0, done as int),
            decreases buf@.len() - done,
        {
            let clen: usize = if buf.len() - done < PAGE_SIZE as usize {
                buf.len() - done
            } else {
                PAGE_SIZE as usize
            };
            let ghost prev = self.chip_mem();
            match self.write_page(address + done as u32, &buf[done..done + clen]) {
                Ok(()) => {},
                Err(e) => {
                    proof {
                        if (e matches Error::WriteEnableFail) {
                            assert(exists|k: int|
                                0 <= k <= buf@.len() && self.chip_mem() == spec_program(
                                    m0,
                                    address as int,
                                    buf@.subrange(0, k),
                                ));
                        }
                        if (e matches Error::ReadbackFail) {
                            lemma_program_concat(
                                m0,
                                address as int,
                                buf@.subrange(0, done as int),
                                buf@.subrange(done as int, done + clen),
                            );
                            assert(buf@.subrange(0, done as int) + buf@.subrange(
                                done as int,
                                done + clen,
                            ) =~= buf@.subrange(0, done + clen));
                            assert(self.chip_mem() == spec_program(
                                m0,
                                address as int,
                                buf@.subrange(0, done + clen),
                            ));
                            assert(exists|k: int|
                                0 <= k <= buf@.len() && self.chip_mem() == spec_program(
                                    m0,
                                    address as int,
                                    buf@.subrange(0, k),
                                ));
                        }
                    }
                    return Err(e);
                },
            }
            proof {
                lemma_program_concat(
                    m0,
                    address as int,
                    buf@.subrange(0, done as int),
                    buf@.subrange(done as int, done + clen),
                );
                assert(buf@.subrange(0, done as int) + buf@.subrange(done as int, done + clen)
                    =~= buf@.subrange(0, done + clen));
                if done + clen < buf@.len() {
                    lemma_page_step_aligns(address as int + done);
                }
                if self.readback_enabled() {
                    assert forall|i: int| 0 <= i < done + clen implies self.chip_mem()[address
                        + i] == buf@[i] by {
                        if i < done {
                            assert(prev[address + i] == prev.subrange(
                                address as int,
                                address + done,
                            )[i]);
                        } else {
                            assert(self.chip_mem()[address + i] == self.chip_mem().subrange(
                                address + done,
                                address + done + clen,
                            )[i - done]);
                        }
                    }
                    assert(self.chip_mem().subrange(address as int, address + done + clen)
                        =~= buf@.subrange(0, done + clen));
                }
            }
            done += clen;
        }

        proof {
            assert(buf@.subrange(0, buf@.len() as int) =~= buf@);
        }
        Ok(())
    }

    /// Checks that an erased region reads back as all `0xFF` bytes,
    /// checking it in 64-byte windows.
    #[verifier::loop_isolation(false)]
    fn verify_erased(&mut self, address: u32, len: u32) -> (r: Result<
        (),
        Error<SPI::BusError, HOLD::PinError>,
    >)
        requires
            !old(self).chip_busy(),
            address + len <= CAPACITY,
        ensures
            old(self).same_config(final(self)),
            final(self).chip_mem() == old(self).chip_mem(),
            !final(self).chip_busy(),
            final(self).chip_write_latch() == old(self).chip_write_latch(),
            final(self).chip_four_byte_mode() == old(self).chip_four_byte_mode(),
            r matches Ok(()) ==> forall|i: int|
                address <= i < address + len ==> final(self).chip_mem()[i] == 0xFFu8,
            r matches Err(Error::ReadbackFail) ==> exists|i: int|
                address <= i < address + len && old(self).chip_mem()[i] != 0xFFu8,
            r matches Err(e) ==> (e matches Error::SpiError(_) || e matches Error::ReadbackFail),
    {
        let mut offset: u32 = 0;
        while offset < len
            invariant
                offset <= len,
                old(self).same_config(self),
                self.chip_mem() == old(self).chip_mem(),
                self.chip_mem().len() == CAPACITY,
                !self.chip_busy(),
                self.chip_write_latch() == old(self).chip_write_latch(),
                self.chip_four_byte_mode() == old(self).chip_four_byte_mode(),
                forall|i: int| address <= i < address + offset ==> self.chip_mem()[i] == 0xFFu8,
            decreases len - offset,
        {
            let clen: u32 = if len - offset < 64 {
                len - offset
            } else {
                64
            };
            let mut buf = zero_vec(clen as usize);
            match self.read(address + offset, &mut buf) {
                Ok(()) => {},
                Err(e) => {
                    return Err(e);
                },
            }

            let mut j: usize = 0;
            while j < clen as usize
                invariant
                    j <= clen,
                    buf@.len() == clen,
                    forall|jj: int| 0 <= jj < j ==> buf@[jj] == 0xFFu8,
                decreases clen - j,
            {
                if buf[j] != 0xFF {
                    proof {
                        assert(buf@[j as int] == self.chip_mem().subrange(
                            address + offset,
                            address + offset + clen,
                        )[j as int]);
                        assert(self.chip_mem()[address + offset + j] != 0xFFu8);
                    }
                    return Err(Error::ReadbackFail);
                }
                j += 1;
            }

            proof {
                assert forall|i: int| address <= i < address + offset + clen implies self
                    .chip_mem()[i] == 0xFFu8 by {
                    if address + offset <= i {
                        assert(self.chip_mem()[i] == self.chip_mem().subrange(
                            address + offset,
                            address + offset + clen,
                        )[i - (address + offset)]);
                        assert(buf@[i - (address + offset)] == 0xFFu8);
                    }
                }
            }
            offset += clen;
        }
        Ok(())
    }

    /// Erases a single sector of flash memory with the size of SECTOR_SIZE.
    ///
    /// Waits for the chip to complete its current operation before starting
    /// the erase operation.
    ///
    /// # Arguments
    /// * `index` - the index of the sector that needs to be erased. The
    ///   address of the first byte of the sector is the provided index *
    ///   SECTOR_SIZE.
    pub fn erase_sector(&mut self, index: u32) -> (r: Result<
        (),
        Error<SPI::BusError, HOLD::PinError>,
    >)
        ensures
            old(self).same_config(final(self)),
            index >= N_SECTORS ==> {
                &&& r matches Err(Error::OutOfBounds)
                &&& *final(self) == *old(self)
            },
            r matches Err(Error::OutOfBounds) ==> index >= N_SECTORS,
            r matches Ok(()) ==> {
                &&& index < N_SECTORS
                &&& final(self).chip_mem() == spec_erased(
                    old(self).chip_mem(),
                    index * SECTOR_SIZE,
                    SECTOR_SIZE as int,
                )
                &&& !final(self).chip_busy()
                &&& final(self).chip_four_byte_mode() == old(self).chip_four_byte_mode()
            },
            r matches Err(Error::WriteEnableFail) ==> {
                &&& final(self).chip_mem() == old(self).chip_mem()
                &&& !final(self).chip_write_latch()
                &&& !final(self).chip_busy()
            },
            r matches Err(Error::ReadbackFail) ==> {
                &&& old(self).readback_enabled()
                &&& index < N_SECTORS
                &&& final(self).chip_mem() == spec_erased(
                    old(self).chip_mem(),
                    index * SECTOR_SIZE,
                    SECTOR_SIZE as int,
                )
                &&& !final(self).chip_busy()
            },
            r matches Err(e) ==> !(e matches Error::NotAligned) && !(e matches Error::PinError(_)),
    {
        if index >= N_SECTORS {
            return Err(Error::OutOfBounds);
        }

        // in case the chip is still busy from a previous operation
        self.wait_while_busy()?;

        self.enable_write()?;
        let address: u32 = index * SECTOR_SIZE;

        let cmd = command_and_address(CMD_SECTOR_ERASE_4BA, address);
        proof {
            lemma_mod_multiples_basic(index as int, SECTOR_SIZE as int);
        }
        let ghost b0 = self.spi;
        match self.spi.send_sector_erase(&cmd) {
            Ok(()) => {
                proof {
                    lemma_mem_erased(b0, self.spi, address as int, SECTOR_SIZE as int);
                }
            },
            Err(e) => {
                return Err(Error::SpiError(e));
            },
        }

        // typical 50ms, max 400ms
        self.wait_while_busy()?;

        if self.verify {
            self.verify_erased(address, SECTOR_SIZE)?;
        }

        Ok(())
    }

    /// Erases a single block of flash memory with the size of BLOCK_32K_SIZE.
    ///
    /// Waits for the chip to complete its current operation before starting
    /// the erase operation.  This erase opcode honours the chip's current
    /// address mode, so the driver enters 4-byte address mode first — a
    /// requirement unique to this command — and never leaves it, since no
    /// command the driver issues requires 3-byte mode.
    ///
    /// # Arguments
    /// * `index` - the index of the block that needs to be erased. The
    ///   address of the first byte of the block is the provided index *
    ///   BLOCK_32K_SIZE.
    pub fn erase_block_32k(&mut self, index: u32) -> (r: Result<
        (),
        Error<SPI::BusError, HOLD::PinError>,
    >)
        ensures
            old(self).same_config(final(self)),
            index >= N_BLOCKS_32K ==> {
                &&& r matches Err(Error::OutOfBounds)
                &&& *final(self) == *old(self)
            },
            r matches Err(Error::OutOfBounds) ==> index >= N_BLOCKS_32K,
            r matches Ok(()) ==> {
                &&& index < N_BLOCKS_32K
                &&& final(self).chip_mem() == spec_erased(
                    old(self).chip_mem(),
                    index * BLOCK_32K_SIZE,
                    BLOCK_32K_SIZE as int,
                )
                &&& !final(self).chip_busy()
                &&& final(self).chip_four_byte_mode()
            },
            r matches Err(Error::WriteEnableFail) ==> {
                &&& final(self).chip_mem() == old(self).chip_mem()
                &&& !final(self).chip_write_latch()
                &&& !final(self).chip_busy()
            },
            r matches Err(Error::ReadbackFail) ==> {
                &&& old(self).readback_enabled()
                &&& index < N_BLOCKS_32K
                &&& final(self).chip_mem() == spec_erased(
                    old(self).chip_mem(),
                    index * BLOCK_32K_SIZE,
                    BLOCK_32K_SIZE as int,
                )
                &&& !final(self).chip_busy()
            },
            r matches Err(e) ==> !(e matches Error::NotAligned) && !(e matches Error::PinError(_)),
    {
        if index >= N_BLOCKS_32K {
            return Err(Error::OutOfBounds);
        }

        // in case the chip is still busy from a previous operation
        self.wait_while_busy()?;

        self.enable_write()?;

        // this command requires 4-byte address mode, so we enter it here.
        self.enter_4_byte_address_mode()?;

        let address: u32 = index * BLOCK_32K_SIZE;

        let cmd = command_and_address(CMD_BLOCK_ERASE_32K, address);
        proof {
            lemma_mod_multiples_basic(index as int, BLOCK_32K_SIZE as int);
        }
        let ghost b0 = self.spi;
        match self.spi.send_block_erase_32k(&cmd) {
            Ok(()) => {
                proof {
                    lemma_mem_erased(b0, self.spi, address as int, BLOCK_32K_SIZE as int);
                }
            },
            Err(e) => {
                return Err(Error::SpiError(e));
            },
        }

        // typical 120ms, max 1600ms
        self.wait_while_busy()?;

        // we don't need to exit 4-byte address mode as no command in our
        // driver requires 3-byte address mode.

        if self.verify {
            self.verify_erased(address, BLOCK_32K_SIZE)?;
        }

        Ok(())
    }

    /// Erases a single block of flash memory with the size of BLOCK_64K_SIZE.
    ///
    /// Waits for the chip to complete its current operation before starting
    /// the erase operation.
    ///
    /// # Arguments
    /// * `index` - the index of the block that needs to be erased. The
    ///   address of the first byte of the block is the provided index *
    ///   BLOCK_64K_SIZE.
    pub fn erase_block_64k(&mut self, index: u32) -> (r: Result<
        (),
        Error<SPI::BusError, HOLD::PinError>,
    >)
        ensures
            old(self).same_config(final(self)),
            index >= N_BLOCKS_64K ==> {
                &&& r matches Err(Error::OutOfBounds)
                &&& *final(self) == *old(self)
            },
            r matches Err(Error::OutOfBounds) ==> index >= N_BLOCKS_64K,
            r matches Ok(()) ==> {
                &&& index < N_BLOCKS_64K
                &&& final(self).chip_mem() == spec_erased(
                    old(self).chip_mem(),
                    index * BLOCK_64K_SIZE,
                    BLOCK_64K_SIZE as int,
                )
                &&& !final(self).chip_busy()
                &&& final(self).chip_four_byte_mode() == old(self).chip_four_byte_mode()
            },
            r matches Err(Error::WriteEnableFail) ==> {
                &&& final(self).chip_mem() == old(self).chip_mem()
                &&& !final(self).chip_write_latch()
                &&& !final(self).chip_busy()
            },
            r matches Err(Error::ReadbackFail) ==> {
                &&& old(self).readback_enabled()
                &&& index < N_BLOCKS_64K
                &&& final(self).chip_mem() == spec_erased(
                    old(self).chip_mem(),
                    index * BLOCK_64K_SIZE,
                    BLOCK_64K_SIZE as int,
                )
                &&& !final(self).chip_busy()
            },
            r matches Err(e) ==> !(e matches Error::NotAligned) && !(e matches Error::PinError(_)),
    {
        if index >= N_BLOCKS_64K {
            return Err(Error::OutOfBounds);
        }

        // in case the chip is still busy from a previous operation
        self.wait_while_busy()?;

        self.enable_write()?;

        let address: u32 = index * BLOCK_64K_SIZE;

        let cmd = command_and_address(CMD_BLOCK_ERASE_64K_4BA, address);
        proof {
            lemma_mod_multiples_basic(index as int, BLOCK_64K_SIZE as int);
        }
        let ghost b0 = self.spi;
        match self.spi.send_block_erase_64k(&cmd) {
            Ok(()) => {
                proof {
                    lemma_mem_erased(b0, self.spi, address as int, BLOCK_64K_SIZE as int);
                }
            },
            Err(e) => {
                return Err(Error::SpiError(e));
            },
        }

        // typical 150ms, max 1600ms
        self.wait_while_busy()?;

        if self.verify {
            self.verify_erased(address, BLOCK_64K_SIZE)?;
        }

        Ok(())
    }

    /// Erases all sectors on the flash chip. This is a very expensive
    /// operation: the chip can stay busy for minutes.
    ///
    /// Waits for the chip to complete its current operation before starting
    /// the erase operation.
    pub fn erase_chip(&mut self) -> (r: Result<(), Error<SPI::BusError, HOLD::PinError>>)
        ensures
            old(self).same_config(final(self)),
            r matches Ok(()) ==> {
                &&& final(self).chip_mem() == spec_erased(
                    old(self).chip_mem(),
                    0,
                    CAPACITY as int,
                )
                &&& !final(self).chip_busy()
                &&& final(self).chip_four_byte_mode() == old(self).chip_four_byte_mode()
            },
            r matches Err(Error::WriteEnableFail) ==> {
                &&& final(self).chip_mem() == old(self).chip_mem()
                &&& !final(self).chip_write_latch()
                &&& !final(self).chip_busy()
            },
            r matches Err(Error::ReadbackFail) ==> {
                &&& old(self).readback_enabled()
                &&& final(self).chip_mem() == spec_erased(old(self).chip_mem(), 0, CAPACITY as int)
                &&& !final(self).chip_busy()
            },
            r matches Err(e) ==> (e matches Error::SpiError(_) || e matches Error::WriteEnableFail
                || e matches Error::ReadbackFail),
    {
        // in case the chip is still busy from a previous operation
        self.wait_while_busy()?;

        self.enable_write()?;

        let ghost b0 = self.spi;
        match self.spi.send_chip_erase(&[CMD_CHIP_ERASE]) {
            Ok(()) => {
                proof {
                    lemma_mem_erased(b0, self.spi, 0, CAPACITY as int);
                }
            },
            Err(e) => {
                return Err(Error::SpiError(e));
            },
        }

        // typical 80s, max 400s
        self.wait_while_busy()?;

        if self.verify {
            self.verify_erased(0, CAPACITY)?;
        }

        Ok(())
    }

    /// Erases a range of sectors. The range is expressed in bytes. These
    /// bytes need to be a multiple of SECTOR_SIZE.
    /// If the range starts at SECTOR_SIZE * 3 then the erase starts at the
    /// fourth sector.
    /// All sectors are erased in the range [start_sector..end_sector).
    /// The start address may not be a higher value than the end address.
    ///
    /// The erase is not transactional: a failure part-way leaves the
    /// sectors before it erased and propagates the first error.
    ///
    /// # Arguments
    /// * `start_address` - Address of the first byte of the start of the
    ///   range of sectors that need to be erased.
    /// * `end_address` - Address of the first byte of the end of the range
    ///   of sectors that need to be erased.
    #[verifier::loop_isolation(false)]
    pub fn erase_range(&mut self, start_address: u32, end_address: u32) -> (r: Result<
        (),
        Error<SPI::BusError, HOLD::PinError>,
    >)
        ensures
            old(self).same_config(final(self)),
            (start_address % SECTOR_SIZE != 0 || end_address % SECTOR_SIZE != 0) <==> r matches Err(
                Error::NotAligned,
            ),
            r matches Err(Error::NotAligned) ==> *final(self) == *old(self),
            (start_address % SECTOR_SIZE == 0 && end_address % SECTOR_SIZE == 0 && start_address
                > end_address) ==> {
                &&& r matches Err(Error::OutOfBounds)
                &&& *final(self) == *old(self)
            },
            r matches Err(Error::OutOfBounds) ==> (start_address > end_address || end_address
                > CAPACITY),
            (start_address % SECTOR_SIZE == 0 && end_address % SECTOR_SIZE == 0 && start_address
                < end_address && start_address >= CAPACITY) ==> {
                &&& r matches Err(Error::OutOfBounds)
                &&& *final(self) == *old(self)
            },
            r matches Ok(()) ==> {
                &&& start_address % SECTOR_SIZE == 0
                &&& end_address % SECTOR_SIZE == 0
                &&& start_address <= end_address
                &&& (start_address < end_address ==> end_address <= CAPACITY)
                &&& final(self).chip_mem() == spec_erased(
                    old(self).chip_mem(),
                    start_address as int,
                    end_address - start_address,
                )
                &&& (start_address < end_address ==> !final(self).chip_busy())
                &&& (start_address == end_address ==> *final(self) == *old(self))
                &&& final(self).chip_four_byte_mode() == old(self).chip_four_byte_mode()
            },
            r matches Err(Error::ReadbackFail) ==> {
                &&& old(self).readback_enabled()
                &&& !final(self).chip_busy()
            },
            r matches Err(Error::WriteEnableFail) ==> {
                &&& !final(self).chip_write_latch()
                &&& !final(self).chip_busy()
            },
            (r matches Err(Error::WriteEnableFail) || r matches Err(Error::ReadbackFail))
                ==> exists|k: int|
                0 <= k && start_address + k <= end_address && final(self).chip_mem()
                    == #[trigger] spec_erased(old(self).chip_mem(), start_address as int, k),
            r matches Err(e) ==> !(e matches Error::PinError(_)),
    {
        if start_address % SECTOR_SIZE != 0 {
            return Err(Error::NotAligned);
        }

        if end_address % SECTOR_SIZE != 0 {
            return Err(Error::NotAligned);
        }

        if start_address > end_address {
            return Err(Error::OutOfBounds);
        }

        let start_sector = start_address / SECTOR_SIZE;
        let end_sector = end_address / SECTOR_SIZE;

        proof {
            lemma_fundamental_div_mod(start_address as int, SECTOR_SIZE as int);
            lemma_fundamental_div_mod(end_address as int, SECTOR_SIZE as int);
            assert(spec_erased(self.chip_mem(), start_address as int, 0) =~= self.chip_mem());
        }
        let ghost m0 = self.chip_mem();

        let mut sector = start_sector;
        while sector < end_sector
            invariant
                start_sector <= sector <= end_sector,
                start_address == start_sector * SECTOR_SIZE,
                end_address == end_sector * SECTOR_SIZE,
                self.chip_mem() == spec_erased(
                    m0,
                    start_address as int,
                    sector * SECTOR_SIZE - start_address,
                ),
                self.chip_mem().len() == CAPACITY,
                old(self).same_config(self),
                self.chip_four_byte_mode() == old(self).chip_four_byte_mode(),
                sector == start_sector ==> *self == *old(self),
                sector > start_sector ==> !self.chip_busy(),
                sector > start_sector ==> sector <= N_SECTORS,
            decreases end_sector - sector,
        {
            match self.erase_sector(sector) {
                Ok(()) => {},
                Err(e) => {
                    proof {
                        if start_address >= CAPACITY {
                            assert(start_sector * SECTOR_SIZE >= N_SECTORS * SECTOR_SIZE);
                            assert(sector == start_sector);
                        }
                        if (e matches Error::WriteEnableFail) {
                            assert(self.chip_mem() == spec_erased(
                                m0,
                                start_address as int,
                                sector * SECTOR_SIZE - start_address,
                            ));
                            assert(exists|k: int|
                                0 <= k && start_address + k <= end_address && self.chip_mem()
                                    == #[trigger] spec_erased(m0, start_address as int, k));
                        }
                        if (e matches Error::ReadbackFail) {
                            lemma_erase_concat(
                                m0,
                                start_address as int,
                                sector * SECTOR_SIZE - start_address,
                                SECTOR_SIZE as int,
                            );
                            assert(self.chip_mem() == spec_erased(
                                m0,
                                start_address as int,
                                sector * SECTOR_SIZE + SECTOR_SIZE - start_address,
                            ));
                            assert(exists|k: int|
                                0 <= k && start_address + k <= end_address && self.chip_mem()
                                    == #[trigger] spec_erased(m0, start_address as int, k));
                        }
                    }
                    return Err(e);
                },
            }
            proof {
                lemma_erase_concat(
                    m0,
                    start_address as int,
                    sector * SECTOR_SIZE - start_address,
                    SECTOR_SIZE as int,
                );
            }
            sector += 1;
        }

        Ok(())
    }
}

/// A write whose first chunk is `PAGE_SIZE - address % PAGE_SIZE` bytes
/// long continues on a page boundary.
proof fn lemma_head_chunk_aligns(a: int)
    requires
        0 <= a,
    ensures
        (a + (PAGE_SIZE - a % (PAGE_SIZE as int))) % (PAGE_SIZE as int) == 0,
{
    let p = PAGE_SIZE as int;
    lemma_fundamental_div_mod(a, p);
    assert(a + (p - a % p) == (a / p + 1) * p);
    lemma_mod_multiples_basic(a / p + 1, p);
}

/// Advancing a page-aligned position by one page keeps it page-aligned.
proof fn lemma_page_step_aligns(x: int)
    requires
        0 <= x,
        x % (PAGE_SIZE as int) == 0,
    ensures
        (x + PAGE_SIZE) % (PAGE_SIZE as int) == 0,
{
    let p = PAGE_SIZE as int;
    lemma_fundamental_div_mod(x, p);
    assert(x + p == (x / p + 1) * p);
    lemma_mod_multiples_basic(x / p + 1, p);
}

/// A vector of `n` zero bytes, used as a scratch read buffer.
fn zero_vec(n: usize) -> (v: Vec<u8>)
    ensures
        v@.len() == n,
{
    let mut v: Vec<u8> = Vec::new();
    while v.len() < n
        invariant
            v@.len() <= n,
        decreases n - v@.len(),
    {
        v.push(0);
    }
    v
}

} // verus!
