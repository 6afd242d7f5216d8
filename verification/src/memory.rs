//! Flat byte-addressable memory with bounds-checked little-endian accessors.
//!
//! Addresses are unsigned 32-bit offsets into the byte store. Multi-byte
//! values are little-endian. An access that would touch bytes outside the
//! store fails with `OutOfBounds`; there is no alignment constraint beyond
//! the needed contiguous bytes existing at the offset.
//!
//! The store covers the whole 32-bit address space less one byte.
//! Allocating that eagerly would be wasteful, so it is backed by pages
//! materialized on first write; an unmaterialized page reads as zeroes.
//! The paging is invisible to the accessors' contracts, which speak only
//! of the store's view: the full-length byte sequence.

use vstd::arithmetic::div_mod::lemma_fundamental_div_mod;
use vstd::prelude::*;

verus! {

/// Bytes per page of the backing store.
pub const PAGE_SIZE: usize = 0x10000;

/// Number of pages of the backing store.
pub const PAGE_COUNT: usize = 0x10000;

/// Number of bytes the store holds: the full 32-bit address space less
/// one byte (`PAGE_COUNT * PAGE_SIZE - 1`), so the last page is one byte
/// shorter than the others.
pub const MEMORY_BYTES: usize = 0xffff_ffff;

/// Error of the memory accessors: the access would reach outside the
/// store.
#[derive(PartialEq, Eq, Structural, Clone, Copy, Debug)]
pub enum MemoryError {
    OutOfBounds,
}

pub struct Memory {
    pub pages: Vec<Vec<u8>>,
}

/// Capacity of page `p`: a full page, except the last, which is one byte
/// short of the 32-bit address space.
pub open spec fn page_capacity(p: int) -> int {
    if p == PAGE_COUNT - 1 {
        (PAGE_SIZE - 1) as int
    } else {
        PAGE_SIZE as int
    }
}

/// The byte the paged store holds at offset `a`: zero while the page is
/// unmaterialized, else the byte of the page.
pub open spec fn stored_byte(m: Memory, a: int) -> u8 {
    let p = a / (PAGE_SIZE as int);
    let off = a % (PAGE_SIZE as int);
    if m.pages@[p]@.len() == 0 {
        0
    } else {
        m.pages@[p]@[off]
    }
}

impl View for Memory {
    type V = Seq<u8>;

    /// The store as one byte sequence over the whole address range.
    open spec fn view(&self) -> Seq<u8> {
        Seq::new(MEMORY_BYTES as nat, |i: int| stored_byte(*self, i))
    }
}

impl Memory {
    /// Well-formedness of the page table: one entry per page, each either
    /// empty (an unmaterialized, all-zero page) or filled to its capacity.
    pub open spec fn wf(&self) -> bool {
        &&& self.pages@.len() == PAGE_COUNT
        &&& forall|p: int|
            0 <= p < PAGE_COUNT ==> (#[trigger] self.pages@[p]@.len() == 0 || self.pages@[p]@.len()
                == page_capacity(p))
    }

    /// A zero-initialized store over the whole address range; no page is
    /// materialized yet.
    pub fn new() -> (m: Memory)
        ensures
            m.wf(),
            m@.len() == MEMORY_BYTES,
            forall|i: int| 0 <= i < m@.len() ==> m@[i] == 0,
    {
        let mut pages: Vec<Vec<u8>> = Vec::new();
        let mut j: usize = 0;
        while j < PAGE_COUNT
            invariant
                j <= PAGE_COUNT,
                pages@.len() == j,
                forall|p: int| 0 <= p < j ==> #[trigger] pages@[p]@.len() == 0,
            decreases PAGE_COUNT - j,
        {
            pages.push(Vec::new());
            j = j + 1;
        }
        let m = Memory { pages };
        proof {
            assert forall|i: int| 0 <= i < m@.len() implies m@[i] == 0 by {
                assert(0 <= i / (PAGE_SIZE as int) < PAGE_COUNT) by (nonlinear_arith)
                    requires
                        0 <= i < 0xffff_ffffint,
                ;
            }
        }
        m
    }
}

/// Builds one zero-filled page of `capacity` bytes.
fn zero_page(capacity: usize) -> (page: Vec<u8>)
    ensures
        page@.len() == capacity,
        forall|i: int| 0 <= i < page@.len() ==> page@[i] == 0,
{
    let page: Vec<u8> = vec![0u8; capacity];
    proof {
        assert forall|i: int| 0 <= i < page@.len() implies page@[i] == 0 by {
            assert(cloned(0u8, page@[i]));
        }
    }
    page
}

/// The page and in-page offset an address falls in, and that they index
/// into the page table and the page's capacity.
proof fn lemma_page_split(a: int)
    requires
        0 <= a < MEMORY_BYTES,
    ensures
        0 <= a / (PAGE_SIZE as int) < PAGE_COUNT,
        0 <= a % (PAGE_SIZE as int) < page_capacity(a / (PAGE_SIZE as int)),
{
    lemma_fundamental_div_mod(a, PAGE_SIZE as int);
    assert(0 <= a / (PAGE_SIZE as int) < PAGE_COUNT && 0 <= a % (PAGE_SIZE as int) < PAGE_SIZE
        as int) by (nonlinear_arith)
        requires
            0 <= a < 0xffff_ffffint,
    ;
    if a / (PAGE_SIZE as int) == PAGE_COUNT - 1 {
        assert(a % (PAGE_SIZE as int) < PAGE_SIZE - 1) by (nonlinear_arith)
            requires
                0 <= a < 0xffff_ffffint,
                a == (PAGE_SIZE as int) * (a / (PAGE_SIZE as int)) + a % (PAGE_SIZE as int),
                a / (PAGE_SIZE as int) == PAGE_COUNT - 1,
        ;
    }
}

/// Reads the byte the store holds at in-bounds offset `a`.
fn stored_byte_at(memory: &Memory, a: usize) -> (b: u8)
    requires
        memory.wf(),
        a < MEMORY_BYTES,
    ensures
        b == memory@[a as int],
{
    proof {
        lemma_page_split(a as int);
    }
    let p = a / PAGE_SIZE;
    let off = a % PAGE_SIZE;
    let page = &memory.pages[p];
    if page.len() == 0 {
        0
    } else {
        page[off]
    }
}

/// Writes the byte the store holds at in-bounds offset `a`, materializing
/// the page it falls in if the page is not held yet.
fn store_byte_at(memory: &mut Memory, a: usize, value: u8)
    requires
        old(memory).wf(),
        a < MEMORY_BYTES,
    ensures
        final(memory).wf(),
        final(memory)@ == old(memory)@.update(a as int, value),
{
    proof {
        lemma_page_split(a as int);
    }
    let p = a / PAGE_SIZE;
    let off = a % PAGE_SIZE;
    let capacity = if p == PAGE_COUNT - 1 {
        PAGE_SIZE - 1
    } else {
        PAGE_SIZE
    };
    let mut page: Vec<u8> = Vec::new();
    memory.pages.set_and_swap(p, &mut page);
    if page.len() == 0 {
        page = zero_page(capacity);
    }
    page.set(off, value);
    memory.pages.set_and_swap(p, &mut page);
    proof {
        assert forall|i: int| 0 <= i < MEMORY_BYTES && i != a as int implies stored_byte(
            *memory,
            i,
        ) == stored_byte(*old(memory), i) by {
            lemma_page_split(i);
            let pi = i / (PAGE_SIZE as int);
            if pi == p as int {
                lemma_fundamental_div_mod(i, PAGE_SIZE as int);
                lemma_fundamental_div_mod(a as int, PAGE_SIZE as int);
            }
        }
        assert(memory@ =~= old(memory)@.update(a as int, value));
    }
}

/// Reads the little-endian word whose four bytes start at `address`, or
/// reports `OutOfBounds` when they do not all lie inside the store.
pub fn read_word(memory: &Memory, address: u32) -> (r: Result<u32, MemoryError>)
    requires
        memory.wf(),
    ensures
        address as int + 4 <= memory@.len() ==> r == Ok::<u32, MemoryError>(
            word_at(memory@, address as int),
        ),
        address as int + 4 > memory@.len() ==> r == Err::<u32, MemoryError>(
            MemoryError::OutOfBounds,
        ),
{
    let a = address as usize;
    if a > MEMORY_BYTES - 4 {
        return Err(MemoryError::OutOfBounds);
    }
    let b0 = stored_byte_at(memory, a);
    let b1 = stored_byte_at(memory, a + 1);
    let b2 = stored_byte_at(memory, a + 2);
    let b3 = stored_byte_at(memory, a + 3);
    Ok(b0 as u32 + b1 as u32 * 0x100 + b2 as u32 * 0x10000 + b3 as u32 * 0x1000000)
}

/// Reads the little-endian halfword whose two bytes start at `address`, or
/// reports `OutOfBounds` when they do not both lie inside the store.
pub fn read_halfword(memory: &Memory, address: u32) -> (r: Result<u16, MemoryError>)
    requires
        memory.wf(),
    ensures
        address as int + 2 <= memory@.len() ==> r == Ok::<u16, MemoryError>(
            halfword_at(memory@, address as int),
        ),
        address as int + 2 > memory@.len() ==> r == Err::<u16, MemoryError>(
            MemoryError::OutOfBounds,
        ),
{
    let a = address as usize;
    if a > MEMORY_BYTES - 2 {
        return Err(MemoryError::OutOfBounds);
    }
    let b0 = stored_byte_at(memory, a);
    let b1 = stored_byte_at(memory, a + 1);
    Ok(b0 as u16 + b1 as u16 * 0x100)
}

/// Reads the byte at `address`, or reports `OutOfBounds` when it lies
/// outside the store.
pub fn read_byte(memory: &Memory, address: u32) -> (r: Result<u8, MemoryError>)
    requires
        memory.wf(),
    ensures
        (address as int) < memory@.len() ==> r == Ok::<u8, MemoryError>(memory@[address as int]),
        address as int >= memory@.len() ==> r == Err::<u8, MemoryError>(MemoryError::OutOfBounds),
{
    let a = address as usize;
    if a >= MEMORY_BYTES {
        return Err(MemoryError::OutOfBounds);
    }
    Ok(stored_byte_at(memory, a))
}

/// Writes `value` little-endian into the four bytes starting at `address`;
/// leaves the store untouched and reports `OutOfBounds` when they do not
/// all lie inside it.
pub fn write_word(memory: &mut Memory, address: u32, value: u32) -> (r: Result<(), MemoryError>)
    requires
        old(memory).wf(),
    ensures
        final(memory).wf(),
        address as int + 4 <= old(memory)@.len() ==> r == Ok::<(), MemoryError>(())
            && final(memory)@ == old(memory)@.update(address as int, word_le_byte(value, 0)).update(
            address as int + 1,
            word_le_byte(value, 1),
        ).update(address as int + 2, word_le_byte(value, 2)).update(
            address as int + 3,
            word_le_byte(value, 3),
        ),
        address as int + 4 > old(memory)@.len() ==> r == Err::<(), MemoryError>(
            MemoryError::OutOfBounds,
        ) && *final(memory) == *old(memory),
{
    let a = address as usize;
    if a > MEMORY_BYTES - 4 {
        return Err(MemoryError::OutOfBounds);
    }
    let b0: u8 = (value % 0x100) as u8;
    let b1: u8 = ((value / 0x100) % 0x100) as u8;
    let b2: u8 = ((value / 0x10000) % 0x100) as u8;
    let b3: u8 = ((value / 0x1000000) % 0x100) as u8;
    store_byte_at(memory, a, b0);
    store_byte_at(memory, a + 1, b1);
    store_byte_at(memory, a + 2, b2);
    store_byte_at(memory, a + 3, b3);
    Ok(())
}

/// Writes `value` little-endian into the two bytes starting at `address`;
/// leaves the store untouched and reports `OutOfBounds` when they do not
/// both lie inside it.
pub fn write_halfword(memory: &mut Memory, address: u32, value: u16) -> (r: Result<
    (),
    MemoryError,
>)
    requires
        old(memory).wf(),
    ensures
        final(memory).wf(),
        address as int + 2 <= old(memory)@.len() ==> r == Ok::<(), MemoryError>(())
            && final(memory)@ == old(memory)@.update(
            address as int,
            halfword_le_byte(value, 0),
        ).update(address as int + 1, halfword_le_byte(value, 1)),
        address as int + 2 > old(memory)@.len() ==> r == Err::<(), MemoryError>(
            MemoryError::OutOfBounds,
        ) && *final(memory) == *old(memory),
{
    let a = address as usize;
    if a > MEMORY_BYTES - 2 {
        return Err(MemoryError::OutOfBounds);
    }
    let b0: u8 = (value % 0x100) as u8;
    let b1: u8 = ((value / 0x100) % 0x100) as u8;
    store_byte_at(memory, a, b0);
    store_byte_at(memory, a + 1, b1);
    Ok(())
}

/// Writes the byte at `address`; leaves the store untouched and reports
/// `OutOfBounds` when it lies outside it.
pub fn write_byte(memory: &mut Memory, address: u32, value: u8) -> (r: Result<(), MemoryError>)
    requires
        old(memory).wf(),
    ensures
        final(memory).wf(),
        (address as int) < old(memory)@.len() ==> r == Ok::<(), MemoryError>(())
            && final(memory)@ == old(memory)@.update(address as int, value),
        address as int >= old(memory)@.len() ==> r == Err::<(), MemoryError>(
            MemoryError::OutOfBounds,
        ) && *final(memory) == *old(memory),
{
    let a = address as usize;
    if a >= MEMORY_BYTES {
        return Err(MemoryError::OutOfBounds);
    }
    store_byte_at(memory, a, value);
    Ok(())
}

/// The little-endian word stored at offset `address`.
pub open spec fn word_at(ram: Seq<u8>, address: int) -> u32
    recommends
        0 <= address,
        address + 4 <= ram.len(),
{
    (ram[address] + ram[address + 1] * 0x100 + ram[address + 2] * 0x10000 + ram[address + 3]
        * 0x1000000) as u32
}

/// The little-endian halfword stored at offset `address`.
pub open spec fn halfword_at(ram: Seq<u8>, address: int) -> u16
    recommends
        0 <= address,
        address + 2 <= ram.len(),
{
    (ram[address] + ram[address + 1] * 0x100) as u16
}

/// Byte `k` (k in 0..4) of the little-endian representation of `value`.
pub open spec fn word_le_byte(value: u32, k: int) -> u8
    recommends
        0 <= k < 4,
{
    if k == 0 {
        (value % 0x100) as u8
    } else if k == 1 {
        ((value / 0x100) % 0x100) as u8
    } else if k == 2 {
        ((value / 0x10000) % 0x100) as u8
    } else {
        ((value / 0x1000000) % 0x100) as u8
    }
}

/// Byte `k` (k in 0..2) of the little-endian representation of `value`.
pub open spec fn halfword_le_byte(value: u16, k: int) -> u8
    recommends
        0 <= k < 2,
{
    if k == 0 {
        (value % 0x100) as u8
    } else {
        ((value / 0x100) % 0x100) as u8
    }
}

/// Writing a word and reading it back at the same offset returns the word:
/// the little-endian split and the little-endian combination are inverse.
pub proof fn lemma_word_round_trip(ram: Seq<u8>, address: int, value: u32)
    requires
        0 <= address,
        address + 4 <= ram.len(),
    ensures
        word_at(
            ram.update(address, word_le_byte(value, 0)).update(
                address + 1,
                word_le_byte(value, 1),
            ).update(address + 2, word_le_byte(value, 2)).update(
                address + 3,
                word_le_byte(value, 3),
            ),
            address,
        ) == value,
{
    let w = ram.update(address, word_le_byte(value, 0)).update(
        address + 1,
        word_le_byte(value, 1),
    ).update(address + 2, word_le_byte(value, 2)).update(address + 3, word_le_byte(value, 3));
    assert(w[address] == value % 0x100);
    assert(w[address + 1] == (value / 0x100) % 0x100);
    assert(w[address + 2] == (value / 0x10000) % 0x100);
    assert(w[address + 3] == (value / 0x1000000) % 0x100);
    assert(value % 0x100 + ((value / 0x100) % 0x100) * 0x100 + ((value / 0x10000) % 0x100)
        * 0x10000 + ((value / 0x1000000) % 0x100) * 0x1000000 == value) by (bit_vector);
}

} // verus!
