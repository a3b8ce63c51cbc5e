//! The driver's model of the chip's memory array, and the laws the
//! program and erase effects obey.

use vstd::prelude::*;

verus! {

/// The memory array after a page program of `data` at `addr`: NOR-flash
/// programming can only clear bits, so each programmed byte is the bitwise
/// AND of the old byte and the data byte.
pub open spec fn spec_program(mem: Seq<u8>, addr: int, data: Seq<u8>) -> Seq<u8> {
    Seq::new(
        mem.len(),
        |i: int|
            if addr <= i < addr + data.len() {
                mem[i] & data[i - addr]
            } else {
                mem[i]
            },
    )
}

/// One byte of the memory array after a page program of `data` at `addr`:
/// `pre` is the byte at address `i` before the program.
pub open spec fn programmed_byte(pre: u8, data: Seq<u8>, addr: int, i: int) -> u8 {
    if addr <= i < addr + data.len() {
        pre & data[i - addr]
    } else {
        pre
    }
}

/// One byte of the memory array after erasing `len` bytes at `addr`:
/// `pre` is the byte at address `i` before the erase.
pub open spec fn erased_byte(pre: u8, addr: int, len: int, i: int) -> u8 {
    if addr <= i < addr + len {
        0xFFu8
    } else {
        pre
    }
}

/// The memory array after erasing `len` bytes at `addr`: every byte of the
/// erased range is set to `0xFF`, the rest is untouched.
pub open spec fn spec_erased(mem: Seq<u8>, addr: int, len: int) -> Seq<u8> {
    Seq::new(
        mem.len(),
        |i: int|
            if addr <= i < addr + len {
                0xFFu8
            } else {
                mem[i]
            },
    )
}

/// Erasing a range is idempotent: erasing an already-erased range leaves
/// the memory array exactly as it was.
pub proof fn lemma_erase_idempotent(mem: Seq<u8>, addr: int, len: int)
    ensures
        spec_erased(spec_erased(mem, addr, len), addr, len) == spec_erased(mem, addr, len),
{
    assert(spec_erased(spec_erased(mem, addr, len), addr, len) =~= spec_erased(mem, addr, len));
}

/// The content of an erased range does not depend on what was stored there
/// before: erasing an already-erased range and erasing a freshly written one
/// both leave the range holding only `0xFF` bytes.
pub proof fn lemma_erased_region_uniform(mem: Seq<u8>, addr: int, len: int)
    requires
        0 <= addr,
        0 <= len,
        addr + len <= mem.len(),
    ensures
        spec_erased(mem, addr, len).subrange(addr, addr + len) == Seq::new(
            len as nat,
            |i: int| 0xFFu8,
        ),
{
    assert(spec_erased(mem, addr, len).subrange(addr, addr + len) =~= Seq::new(
        len as nat,
        |i: int| 0xFFu8,
    ));
}

/// Round trip: programming `data` into an erased range stores exactly
/// `data`, because `0xFF & b == b` for every byte `b`.
pub proof fn lemma_program_erased_roundtrip(mem: Seq<u8>, addr: int, data: Seq<u8>)
    requires
        0 <= addr,
        addr + data.len() <= mem.len(),
        forall|i: int| addr <= i < addr + data.len() ==> mem[i] == 0xFFu8,
    ensures
        spec_program(mem, addr, data).subrange(addr, addr + data.len()) == data,
{
    assert forall|b: u8| (0xFFu8 & b) == b by {
        assert((0xFFu8 & b) == b) by (bit_vector);
    }
    assert(spec_program(mem, addr, data).subrange(addr, addr + data.len()) =~= data);
}

/// Round trip through an erase: erasing a range and then programming
/// `data` anywhere inside it stores exactly `data`, so a read of that
/// range afterwards yields `data`.
pub proof fn lemma_write_after_erase_roundtrip(
    mem: Seq<u8>,
    erase_addr: int,
    erase_len: int,
    addr: int,
    data: Seq<u8>,
)
    requires
        0 <= erase_addr <= addr,
        addr + data.len() <= erase_addr + erase_len,
        erase_addr + erase_len <= mem.len(),
    ensures
        spec_program(spec_erased(mem, erase_addr, erase_len), addr, data).subrange(
            addr,
            addr + data.len(),
        ) == data,
{
    lemma_program_erased_roundtrip(spec_erased(mem, erase_addr, erase_len), addr, data);
}

/// Two consecutive programs act as one program of the concatenated data.
pub proof fn lemma_program_concat(mem: Seq<u8>, addr: int, d1: Seq<u8>, d2: Seq<u8>)
    requires
        0 <= addr,
        addr + d1.len() + d2.len() <= mem.len(),
    ensures
        spec_program(spec_program(mem, addr, d1), addr + d1.len(), d2) == spec_program(
            mem,
            addr,
            d1 + d2,
        ),
{
    assert(spec_program(spec_program(mem, addr, d1), addr + d1.len(), d2) =~= spec_program(
        mem,
        addr,
        d1 + d2,
    ));
}

/// Two consecutive erases of adjacent ranges act as one erase of the
/// combined range.
pub proof fn lemma_erase_concat(mem: Seq<u8>, addr: int, l1: int, l2: int)
    requires
        0 <= addr,
        0 <= l1,
        0 <= l2,
        addr + l1 + l2 <= mem.len(),
    ensures
        spec_erased(spec_erased(mem, addr, l1), addr + l1, l2) == spec_erased(mem, addr, l1 + l2),
{
    assert(spec_erased(spec_erased(mem, addr, l1), addr + l1, l2) =~= spec_erased(
        mem,
        addr,
        l1 + l2,
    ));
}

} // verus!
