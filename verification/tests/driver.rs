//! Driver tests against a simulated flash chip.

use w25q256jv::bus::{ControlPin, FlashBus};
use w25q256jv::lfs::{
    to_littlefs_error, LfsErrorKind, W25q256jvLfsStorage, LFS_BLOCK_COUNT, LFS_BLOCK_CYCLES,
    LFS_BLOCK_SIZE, LFS_READ_SIZE, LFS_WRITE_SIZE,
};
use w25q256jv::{
    command_and_address, Error, ErrorKind, W25q256jv, BLOCK_32K_SIZE, BLOCK_64K_SIZE, CAPACITY,
    N_BLOCKS_32K, N_BLOCKS_64K, N_SECTORS, PAGE_SIZE, SECTOR_SIZE,
};

#[derive(Debug, Clone, Copy, PartialEq, Eq)]
struct SimError;

/// One bus transaction the simulator saw: opcode, decoded address (0 for
/// address-less commands), data length (0 where none).
type LogEntry = (u8, u32, usize);

/// An in-memory W25Q256JV: decodes the framed bytes the driver ships and
/// applies them to a byte array, a busy countdown, the write-enable latch,
/// and the address-mode flag.
struct SimBus {
    mem: Vec<u8>,
    /// Status polls that will still report busy.
    busy: u32,
    /// Polls the chip stays busy after each program/erase command.
    busy_after_cmd: u32,
    wel: bool,
    four_byte: bool,
    /// When set, the write-enable command does not latch.
    fail_write_enable: bool,
    /// When set, reads hand back flipped bits.
    corrupt_reads: bool,
    /// When set, every status poll fails at the transport level.
    fail_bus: bool,
    log: Vec<LogEntry>,
}

fn new_sim() -> SimBus {
    SimBus {
        mem: vec![0xFF; CAPACITY as usize],
        busy: 0,
        busy_after_cmd: 0,
        wel: false,
        four_byte: false,
        fail_write_enable: false,
        corrupt_reads: false,
        fail_bus: false,
        log: Vec::new(),
    }
}

fn decode_addr(cmd: &[u8; 5]) -> u32 {
    u32::from_be_bytes([cmd[1], cmd[2], cmd[3], cmd[4]])
}

impl SimBus {
    fn erase(&mut self, addr: u32, len: u32) {
        for i in addr..addr + len {
            self.mem[i as usize] = 0xFF;
        }
        self.wel = false;
        self.busy = self.busy_after_cmd;
    }

    /// The page-program transactions seen, as (address, length) pairs.
    fn programs(&self) -> Vec<(u32, usize)> {
        self.log
            .iter()
            .filter(|e| e.0 == 0x12)
            .map(|e| (e.1, e.2))
            .collect()
    }

    fn opcodes(&self) -> Vec<u8> {
        self.log.iter().map(|e| e.0).collect()
    }
}

impl FlashBus for SimBus {
    type BusError = SimError;

    fn transfer_status(&mut self, cmd: &[u8; 1]) -> Result<u8, SimError> {
        assert_eq!(cmd[0], 0x05);
        if self.fail_bus {
            return Err(SimError);
        }
        self.log.push((0x05, 0, 0));
        if self.busy > 0 {
            self.busy -= 1;
        }
        let mut s = 0u8;
        if self.busy > 0 {
            s |= 0x01;
        }
        if self.wel {
            s |= 0x02;
        }
        Ok(s)
    }

    fn send_write_enable(&mut self, cmd: &[u8; 1]) -> Result<(), SimError> {
        assert_eq!(cmd[0], 0x06);
        self.log.push((0x06, 0, 0));
        if !self.fail_write_enable {
            self.wel = true;
        }
        Ok(())
    }

    fn send_enter_four_byte_mode(&mut self, cmd: &[u8; 1]) -> Result<(), SimError> {
        assert_eq!(cmd[0], 0xB7);
        self.log.push((0xB7, 0, 0));
        self.four_byte = true;
        Ok(())
    }

    fn send_exit_four_byte_mode(&mut self, cmd: &[u8; 1]) -> Result<(), SimError> {
        assert_eq!(cmd[0], 0xE9);
        self.log.push((0xE9, 0, 0));
        self.four_byte = false;
        Ok(())
    }

    fn send_reset(&mut self, reset: &[u8; 1], enable: &[u8; 1]) -> Result<(), SimError> {
        assert_eq!(reset[0], 0x99);
        assert_eq!(enable[0], 0x66);
        self.log.push((0x99, 0, 0));
        self.log.push((0x66, 0, 0));
        self.busy = 0;
        self.wel = false;
        self.four_byte = false;
        Ok(())
    }

    fn transfer_read(&mut self, cmd: &[u8; 5], buf: &mut Vec<u8>) -> Result<(), SimError> {
        assert_eq!(cmd[0], 0x13);
        let addr = decode_addr(cmd);
        self.log.push((0x13, addr, buf.len()));
        for i in 0..buf.len() {
            buf[i] = self.mem[addr as usize + i];
            if self.corrupt_reads {
                buf[i] ^= 0x0F;
            }
        }
        Ok(())
    }

    fn transfer_page_program(&mut self, cmd: &[u8; 5], data: &[u8]) -> Result<(), SimError> {
        assert_eq!(cmd[0], 0x12);
        let addr = decode_addr(cmd);
        self.log.push((0x12, addr, data.len()));
        assert!(self.wel, "program without write-enable latch");
        for (i, b) in data.iter().enumerate() {
            self.mem[addr as usize + i] &= b;
        }
        self.wel = false;
        self.busy = self.busy_after_cmd;
        Ok(())
    }

    fn send_sector_erase(&mut self, cmd: &[u8; 5]) -> Result<(), SimError> {
        assert_eq!(cmd[0], 0x21);
        let addr = decode_addr(cmd);
        self.log.push((0x21, addr, 0));
        assert!(self.wel, "erase without write-enable latch");
        self.erase(addr, SECTOR_SIZE);
        Ok(())
    }

    fn send_block_erase_32k(&mut self, cmd: &[u8; 5]) -> Result<(), SimError> {
        assert_eq!(cmd[0], 0x52);
        assert!(self.four_byte, "32 KiB erase outside 4-byte address mode");
        let addr = decode_addr(cmd);
        self.log.push((0x52, addr, 0));
        assert!(self.wel, "erase without write-enable latch");
        self.erase(addr, BLOCK_32K_SIZE);
        Ok(())
    }

    fn send_block_erase_64k(&mut self, cmd: &[u8; 5]) -> Result<(), SimError> {
        assert_eq!(cmd[0], 0xDC);
        let addr = decode_addr(cmd);
        self.log.push((0xDC, addr, 0));
        assert!(self.wel, "erase without write-enable latch");
        self.erase(addr, BLOCK_64K_SIZE);
        Ok(())
    }

    fn send_chip_erase(&mut self, cmd: &[u8; 1]) -> Result<(), SimError> {
        assert_eq!(cmd[0], 0xC7);
        self.log.push((0xC7, 0, 0));
        assert!(self.wel, "erase without write-enable latch");
        self.erase(0, CAPACITY);
        Ok(())
    }
}

#[derive(Debug, Clone, Copy, PartialEq, Eq)]
struct SimPin {
    high: bool,
}

/// A pin handle whose every operation fails.
#[derive(Debug, Clone, Copy, PartialEq, Eq)]
struct FailPin;

impl ControlPin for FailPin {
    type PinError = SimError;

    fn set_high(&mut self) -> Result<(), SimError> {
        Err(SimError)
    }

    fn set_state(&mut self, _value: bool) -> Result<(), SimError> {
        Err(SimError)
    }
}

impl ControlPin for SimPin {
    type PinError = SimError;

    fn set_high(&mut self) -> Result<(), SimError> {
        self.high = true;
        Ok(())
    }

    fn set_state(&mut self, value: bool) -> Result<(), SimError> {
        self.high = value;
        Ok(())
    }
}

type Flash = W25q256jv<SimBus, SimPin, SimPin>;

fn new_flash(sim: SimBus) -> Flash {
    W25q256jv::new(sim, SimPin { high: false }, SimPin { high: false }).unwrap()
}

fn read_back(flash: &mut Flash, address: u32, len: usize) -> Vec<u8> {
    let mut buf = vec![0u8; len];
    flash.read(address, &mut buf).unwrap();
    buf
}

#[test]
fn geometry_constants() {
    assert_eq!(PAGE_SIZE, 256);
    assert_eq!(CAPACITY, 33554432);
    assert_eq!(SECTOR_SIZE, 4096);
    assert_eq!(N_SECTORS, 8192);
    assert_eq!(BLOCK_32K_SIZE, 32768);
    assert_eq!(N_BLOCKS_32K, 1024);
    assert_eq!(BLOCK_64K_SIZE, 65536);
    assert_eq!(N_BLOCKS_64K, 512);
    assert_eq!(Flash::capacity(), 33554432);
}

#[test]
fn command_framing_is_big_endian() {
    assert_eq!(
        command_and_address(0x13, 0x0102_0304),
        [0x13, 0x01, 0x02, 0x03, 0x04]
    );
    assert_eq!(command_and_address(0x21, 0), [0x21, 0, 0, 0, 0]);
    assert_eq!(
        command_and_address(0xDC, 0xFFFF_FFFF),
        [0xDC, 0xFF, 0xFF, 0xFF, 0xFF]
    );
    assert_eq!(
        command_and_address(0x12, 33554431),
        [0x12, 0x01, 0xFF, 0xFF, 0xFF]
    );
}

#[test]
fn new_raises_hold_and_wp_pins() {
    let flash = new_flash(new_sim());
    let (_, hold, wp) = flash.release();
    assert!(hold.high);
    assert!(wp.high);
}

#[test]
fn set_hold_and_wp_drive_pins() {
    let mut flash = new_flash(new_sim());
    flash.set_hold(false).unwrap();
    flash.set_wp(false).unwrap();
    let (_, hold, wp) = flash.release();
    assert!(!hold.high);
    assert!(!wp.high);
}

#[test]
fn read_out_of_bounds() {
    let mut flash = new_flash(new_sim());
    let mut buf = vec![0u8; 10];
    assert!(matches!(
        flash.read(CAPACITY - 5, &mut buf),
        Err(Error::OutOfBounds)
    ));
    assert!(matches!(
        flash.read(CAPACITY, &mut buf),
        Err(Error::OutOfBounds)
    ));
    let mut one = vec![0u8; 1];
    assert!(flash.read(CAPACITY - 1, &mut one).is_ok());
}

#[test]
fn write_out_of_bounds() {
    let mut flash = new_flash(new_sim());
    assert!(matches!(
        flash.write(CAPACITY - 5, &[0xAA; 10]),
        Err(Error::OutOfBounds)
    ));
    assert!(matches!(
        flash.write(CAPACITY, &[0xAA; 1]),
        Err(Error::OutOfBounds)
    ));
    assert!(flash.write(CAPACITY - 10, &[0xAA; 10]).is_ok());
}

#[test]
fn write_page_rejects_page_spanning_chunks() {
    let mut flash = new_flash(new_sim());
    // (250 % 256) + 20 = 270 > 256
    assert!(matches!(
        flash.write_page(250, &[0xAA; 20]),
        Err(Error::OutOfBounds)
    ));
    // (0 % 256) + 257 > 256
    assert!(matches!(
        flash.write_page(0, &[0xAA; 257]),
        Err(Error::OutOfBounds)
    ));
    // a full page that fits exactly is accepted
    assert!(flash.write_page(256, &[0xAA; 256]).is_ok());
}

#[test]
fn write_in_first_page_is_one_chunk() {
    // 256 - (300 % 256) = 212 >= 10, so the whole write fits in one chunk.
    let mut flash = new_flash(new_sim());
    flash.write(300, &[0xAA; 10]).unwrap();
    assert_eq!(read_back(&mut flash, 300, 10), vec![0xAA; 10]);
    let (sim, _, _) = flash.release();
    assert_eq!(sim.programs(), vec![(300, 10)]);
}

#[test]
fn write_splits_on_page_boundary() {
    // 256 - 250 = 6, so 20 bytes from address 250 split into 6 + 14.
    let mut flash = new_flash(new_sim());
    let data: Vec<u8> = (0..20).collect();
    flash.write(250, &data).unwrap();
    assert_eq!(read_back(&mut flash, 250, 20), data);
    let (sim, _, _) = flash.release();
    assert_eq!(sim.programs(), vec![(250, 6), (256, 14)]);
}

#[test]
fn write_many_pages_chunks_correctly() {
    let mut flash = new_flash(new_sim());
    let data: Vec<u8> = (0..600u32).map(|i| (i % 251) as u8).collect();
    flash.write(1000, &data).unwrap();
    assert_eq!(read_back(&mut flash, 1000, 600), data);
    let (sim, _, _) = flash.release();
    // 1024 - 1000 = 24, then pages of 256: 24 + 256 + 256 + 64 = 600.
    assert_eq!(
        sim.programs(),
        vec![(1000, 24), (1024, 256), (1280, 256), (1536, 64)]
    );
}

#[test]
fn write_waits_for_busy_chip() {
    let mut sim = new_sim();
    sim.busy = 5;
    sim.busy_after_cmd = 3;
    let mut flash = new_flash(sim);
    flash.write(0, &[0x42; 4]).unwrap();
    assert_eq!(read_back(&mut flash, 0, 4), vec![0x42; 4]);
}

#[test]
fn round_trip_after_erase() {
    let mut flash = new_flash(new_sim());
    flash.erase_range(0, SECTOR_SIZE).unwrap();
    let data: Vec<u8> = (0..100).collect();
    flash.write(17, &data).unwrap();
    assert_eq!(read_back(&mut flash, 17, 100), data);
}

#[test]
fn programming_only_clears_bits() {
    let mut flash = new_flash(new_sim());
    flash.write(0, &[0x0F]).unwrap();
    // Programming 0xF0 over 0x0F leaves the AND of the two.
    flash.write(0, &[0xF0]).unwrap();
    assert_eq!(read_back(&mut flash, 0, 1), vec![0x00]);
}

#[test]
fn erase_sector_out_of_bounds() {
    let mut flash = new_flash(new_sim());
    assert!(matches!(
        flash.erase_sector(N_SECTORS),
        Err(Error::OutOfBounds)
    ));
    assert!(flash.erase_sector(N_SECTORS - 1).is_ok());
}

#[test]
fn erase_block_32k_out_of_bounds() {
    let mut flash = new_flash(new_sim());
    assert!(matches!(
        flash.erase_block_32k(N_BLOCKS_32K),
        Err(Error::OutOfBounds)
    ));
    assert!(flash.erase_block_32k(N_BLOCKS_32K - 1).is_ok());
}

#[test]
fn erase_block_64k_out_of_bounds() {
    let mut flash = new_flash(new_sim());
    assert!(matches!(
        flash.erase_block_64k(N_BLOCKS_64K),
        Err(Error::OutOfBounds)
    ));
    assert!(flash.erase_block_64k(N_BLOCKS_64K - 1).is_ok());
}

#[test]
fn erase_sector_erases_exactly_one_sector() {
    let mut flash = new_flash(new_sim());
    flash.write(SECTOR_SIZE - 2, &[0x11; 4]).unwrap();
    flash.erase_sector(1).unwrap();
    // the two bytes before the sector keep their data
    assert_eq!(read_back(&mut flash, SECTOR_SIZE - 2, 2), vec![0x11; 2]);
    // the two bytes inside the erased sector are blank again
    assert_eq!(read_back(&mut flash, SECTOR_SIZE, 2), vec![0xFF; 2]);
}

#[test]
fn erase_block_32k_enters_four_byte_mode() {
    let mut flash = new_flash(new_sim());
    flash.erase_block_32k(3).unwrap();
    let (sim, _, _) = flash.release();
    assert!(sim.four_byte);
    let ops = sim.opcodes();
    let enter = ops.iter().position(|&op| op == 0xB7).unwrap();
    let erase = ops.iter().position(|&op| op == 0x52).unwrap();
    assert!(enter < erase);
    // the driver never exits 4-byte mode
    assert!(!ops.contains(&0xE9));
}

#[test]
fn erase_block_64k_erases_the_block() {
    let mut flash = new_flash(new_sim());
    flash.write(BLOCK_64K_SIZE, &[0x22; 8]).unwrap();
    flash.erase_block_64k(1).unwrap();
    assert_eq!(read_back(&mut flash, BLOCK_64K_SIZE, 8), vec![0xFF; 8]);
}

#[test]
fn erase_chip_blanks_everything() {
    let mut flash = new_flash(new_sim());
    flash.write(0, &[0x33; 16]).unwrap();
    flash.write(CAPACITY - 16, &[0x44; 16]).unwrap();
    flash.erase_chip().unwrap();
    assert_eq!(read_back(&mut flash, 0, 16), vec![0xFF; 16]);
    assert_eq!(read_back(&mut flash, CAPACITY - 16, 16), vec![0xFF; 16]);
}

#[test]
fn erase_range_not_aligned() {
    let mut flash = new_flash(new_sim());
    assert!(matches!(
        flash.erase_range(1, SECTOR_SIZE),
        Err(Error::NotAligned)
    ));
    assert!(matches!(
        flash.erase_range(0, SECTOR_SIZE + 1),
        Err(Error::NotAligned)
    ));
}

#[test]
fn erase_range_start_after_end() {
    let mut flash = new_flash(new_sim());
    assert!(matches!(
        flash.erase_range(2 * SECTOR_SIZE, SECTOR_SIZE),
        Err(Error::OutOfBounds)
    ));
}

#[test]
fn erase_range_erases_each_sector() {
    let mut flash = new_flash(new_sim());
    flash.write(SECTOR_SIZE - 1, &[0x55; 3 * 4096 + 2]).unwrap();
    flash.erase_range(SECTOR_SIZE, 4 * SECTOR_SIZE).unwrap();
    assert_eq!(read_back(&mut flash, SECTOR_SIZE - 1, 1), vec![0x55]);
    assert_eq!(
        read_back(&mut flash, SECTOR_SIZE, 3 * 4096 as usize),
        vec![0xFF; 3 * 4096]
    );
    let (sim, _, _) = flash.release();
    let erases: Vec<u32> = sim
        .log
        .iter()
        .filter(|e| e.0 == 0x21)
        .map(|e| e.1)
        .collect();
    assert_eq!(
        erases,
        vec![SECTOR_SIZE, 2 * SECTOR_SIZE, 3 * SECTOR_SIZE]
    );
}

#[test]
fn erase_range_empty_is_a_no_op() {
    let mut flash = new_flash(new_sim());
    flash.erase_range(3 * SECTOR_SIZE, 3 * SECTOR_SIZE).unwrap();
    let (sim, _, _) = flash.release();
    assert!(!sim.opcodes().contains(&0x21));
}

#[test]
fn erase_range_past_capacity_erases_prefix_then_fails() {
    let mut flash = new_flash(new_sim());
    let start = CAPACITY - 2 * SECTOR_SIZE;
    flash.write(start, &[0x66; 8]).unwrap();
    assert!(matches!(
        flash.erase_range(start, CAPACITY + SECTOR_SIZE),
        Err(Error::OutOfBounds)
    ));
    // the sectors before the failure point are already erased
    assert_eq!(read_back(&mut flash, start, 8), vec![0xFF; 8]);
}

#[test]
fn write_enable_failure_is_fatal_and_stops_the_operation() {
    let mut sim = new_sim();
    sim.fail_write_enable = true;
    let mut flash = new_flash(sim);
    assert!(matches!(
        flash.write(0, &[0xAA; 4]),
        Err(Error::WriteEnableFail)
    ));
    assert!(matches!(
        flash.erase_sector(0),
        Err(Error::WriteEnableFail)
    ));
    let (sim, _, _) = flash.release();
    let ops = sim.opcodes();
    // the enable command went out, but no program or erase followed
    assert!(ops.contains(&0x06));
    assert!(!ops.contains(&0x12));
    assert!(!ops.contains(&0x21));
}

#[test]
fn write_enabled_reports_the_latch() {
    let mut sim = new_sim();
    sim.wel = true;
    let mut flash = new_flash(sim);
    assert!(flash.write_enabled().unwrap());
    assert!(!flash.busy().unwrap());
}

#[test]
fn busy_reports_the_busy_bit() {
    let mut sim = new_sim();
    sim.busy = 2;
    let mut flash = new_flash(sim);
    assert!(flash.busy().unwrap());
    assert!(!flash.busy().unwrap());
}

#[test]
fn readback_failure_on_corrupted_verification_read() {
    let mut sim = new_sim();
    sim.corrupt_reads = true;
    let mut flash = new_flash(sim);
    flash.set_readback_check(true);
    assert!(matches!(
        flash.write_page(0, &[0xAA; 4]),
        Err(Error::ReadbackFail)
    ));
}

#[test]
fn readback_detects_overwrite_without_erase() {
    let mut flash = new_flash(new_sim());
    flash.write(0, &[0x00; 4]).unwrap();
    flash.set_readback_check(true);
    // Programming 0xFF over 0x00 cannot set bits; verification sees 0x00.
    assert!(matches!(
        flash.write(0, &[0xFF; 4]),
        Err(Error::ReadbackFail)
    ));
}

#[test]
fn readback_passes_on_honest_chip() {
    let mut flash = new_flash(new_sim());
    flash.set_readback_check(true);
    flash.erase_sector(0).unwrap();
    flash.write(10, &[0x77; 300]).unwrap();
    assert_eq!(read_back(&mut flash, 10, 300), vec![0x77; 300]);
}

#[test]
fn erase_idempotence_with_readback() {
    let mut flash = new_flash(new_sim());
    flash.set_readback_check(true);

    // erase a freshly written sector
    flash.write(5 * SECTOR_SIZE, &[0x12; 64]).unwrap();
    flash.erase_sector(5).unwrap();
    let after_first = read_back(&mut flash, 5 * SECTOR_SIZE, SECTOR_SIZE as usize);

    // erase the already-erased sector
    flash.erase_sector(5).unwrap();
    let after_second = read_back(&mut flash, 5 * SECTOR_SIZE, SECTOR_SIZE as usize);

    assert_eq!(after_first, vec![0xFF; SECTOR_SIZE as usize]);
    assert_eq!(after_first, after_second);
}

#[test]
fn reset_issues_both_opcodes_and_clears_mode() {
    let mut flash = new_flash(new_sim());
    flash.erase_block_32k(0).unwrap();
    flash.reset().unwrap();
    let (sim, _, _) = flash.release();
    assert!(!sim.four_byte);
    let ops = sim.opcodes();
    let reset = ops.iter().position(|&op| op == 0x99).unwrap();
    let enable = ops.iter().position(|&op| op == 0x66).unwrap();
    assert_eq!(enable, reset + 1);
}

#[test]
fn error_kind_classification() {
    let not_aligned: Error<SimError, SimError> = Error::NotAligned;
    let oob: Error<SimError, SimError> = Error::OutOfBounds;
    let spi: Error<SimError, SimError> = Error::SpiError(SimError);
    let pin: Error<SimError, SimError> = Error::PinError(SimError);
    let wef: Error<SimError, SimError> = Error::WriteEnableFail;
    let rbf: Error<SimError, SimError> = Error::ReadbackFail;
    assert_eq!(not_aligned.kind(), ErrorKind::NotAligned);
    assert_eq!(oob.kind(), ErrorKind::OutOfBounds);
    assert_eq!(spi.kind(), ErrorKind::Other);
    assert_eq!(pin.kind(), ErrorKind::Other);
    assert_eq!(wef.kind(), ErrorKind::Other);
    assert_eq!(rbf.kind(), ErrorKind::Other);
}

#[test]
fn littlefs_error_mapping() {
    let not_aligned: Error<SimError, SimError> = Error::NotAligned;
    let oob: Error<SimError, SimError> = Error::OutOfBounds;
    let spi: Error<SimError, SimError> = Error::SpiError(SimError);
    let wef: Error<SimError, SimError> = Error::WriteEnableFail;
    assert_eq!(to_littlefs_error(not_aligned), LfsErrorKind::Invalid);
    assert_eq!(to_littlefs_error(oob), LfsErrorKind::Invalid);
    assert_eq!(to_littlefs_error(spi), LfsErrorKind::Io);
    assert_eq!(to_littlefs_error(wef), LfsErrorKind::Io);
}

#[test]
fn lfs_storage_round_trip() {
    let mut storage = W25q256jvLfsStorage::new(new_flash(new_sim()));
    assert_eq!(
        storage.erase(0, SECTOR_SIZE as usize).unwrap(),
        SECTOR_SIZE as usize
    );
    let data: Vec<u8> = (0..64).collect();
    assert_eq!(storage.write(128, &data).unwrap(), 64);
    let mut buf = vec![0u8; 64];
    assert_eq!(storage.read(128, &mut buf).unwrap(), 64);
    assert_eq!(buf, data);
    let flash = storage.into_inner();
    let (sim, _, _) = flash.release();
    assert_eq!(sim.programs(), vec![(128, 64)]);
}

#[test]
fn lfs_storage_rejects_bad_requests() {
    let mut storage = W25q256jvLfsStorage::new(new_flash(new_sim()));
    assert_eq!(storage.erase(0, 0).unwrap(), 0);
    assert_eq!(storage.erase(1, 4096), Err(LfsErrorKind::Invalid));
    assert_eq!(storage.erase(0, 4095), Err(LfsErrorKind::Invalid));
    let mut buf = vec![0u8; 16];
    assert_eq!(
        storage.read(CAPACITY as usize - 8, &mut buf),
        Err(LfsErrorKind::Invalid)
    );
    assert_eq!(
        storage.write(CAPACITY as usize, &[1]),
        Err(LfsErrorKind::Invalid)
    );
}

#[test]
fn bus_transport_error_is_reported() {
    let mut sim = new_sim();
    sim.fail_bus = true;
    let mut flash = new_flash(sim);
    assert!(matches!(flash.busy(), Err(Error::SpiError(SimError))));
    assert!(matches!(flash.write(0, &[1]), Err(Error::SpiError(SimError))));
}

#[test]
fn pin_error_is_reported() {
    let r = W25q256jv::new(new_sim(), FailPin, FailPin);
    assert!(matches!(r, Err(Error::PinError(SimError))));
}

#[test]
fn write_of_nothing_succeeds() {
    let mut flash = new_flash(new_sim());
    flash.write(1234, &[]).unwrap();
    assert!(flash.write(CAPACITY, &[]).is_ok());
}

#[test]
fn lfs_storage_geometry() {
    assert_eq!(LFS_READ_SIZE, 1);
    assert_eq!(LFS_WRITE_SIZE, 256);
    assert_eq!(LFS_BLOCK_SIZE, 4096);
    assert_eq!(LFS_BLOCK_COUNT, 8192);
    assert_eq!(LFS_BLOCK_CYCLES, 100000);
}

#[test]
fn lfs_storage_invalid_requests_leave_the_chip_alone() {
    let mut storage = W25q256jvLfsStorage::new(new_flash(new_sim()));
    storage.write(0, &[0x0F]).unwrap();
    assert_eq!(
        storage.erase(CAPACITY as usize, SECTOR_SIZE as usize),
        Err(LfsErrorKind::Invalid)
    );
    assert_eq!(
        storage.write(CAPACITY as usize, &[1]),
        Err(LfsErrorKind::Invalid)
    );
    let mut buf = vec![0u8; 1];
    storage.read(0, &mut buf).unwrap();
    assert_eq!(buf, vec![0x0F]);
}

#[test]
fn failed_handshake_is_exactly_two_transactions() {
    let mut sim = new_sim();
    sim.fail_write_enable = true;
    let mut flash = new_flash(sim);
    assert!(matches!(
        flash.write_page(0, &[0xAA; 4]),
        Err(Error::WriteEnableFail)
    ));
    let (sim, _, _) = flash.release();
    // the enable command, one status read confirming the latch, nothing else
    assert_eq!(sim.log, vec![(0x06, 0, 0), (0x05, 0, 0)]);
}
