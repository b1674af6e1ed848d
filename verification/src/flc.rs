//! # Flash Controller (FLC)
//!
//! Address and page arithmetic of the internal flash, and the checks every
//! read, write and erase makes before it touches the controller.

use crate::gcr::clocks::{Clock, SystemClock};
use vstd::prelude::*;

verus! {

/// Base address of the flash memory.
pub const FLASH_BASE: u32 = 0x1000_0000;

/// Size of the flash memory.
pub const FLASH_SIZE: u32 = 0x0028_0000;

/// End address of the flash memory.
pub const FLASH_END: u32 = FLASH_BASE + FLASH_SIZE;

/// Size of a flash page.
pub const FLASH_PAGE_SIZE: u32 = 0x4000;

/// Number of flash pages.
pub const FLASH_PAGE_COUNT: u32 = FLASH_SIZE / FLASH_PAGE_SIZE;

/// Log2 of the flash page size.
pub const FLASH_PAGE_SHIFT: u32 = 14;

/// Flash controller errors.
#[derive(Clone, Copy, Debug, PartialEq, Eq, Structural)]
pub enum FlashError {
    /// The target address or page to write or erase is invalid.
    InvalidAddress,
    /// The flash controller was busy or locked when attempting to write or erase.
    AccessViolation,
    /// Writing over the old data with new data would cause 0 -> 1 bit transitions.
    /// The target address must be erased before writing new data.
    NeedsErase,
}

/// Whether `address` lies in the flash.
pub open spec fn in_flash(address: u32) -> bool {
    FLASH_BASE <= address < FLASH_END
}

/// The base address of page `page`.
pub open spec fn page_address(page: int) -> int {
    FLASH_BASE + FLASH_PAGE_SIZE * page
}

/// The page an address lies on.
pub open spec fn page_of(address: int) -> int {
    (address - FLASH_BASE) / FLASH_PAGE_SIZE as int
}

/// The lock register and bit that protect a page: page `p` is bit `p % 32`
/// of lock register `p / 32` (`WELR0`/`RLR0` for pages 0 to 31, and so on).
#[derive(Clone, Copy, Debug, PartialEq, Eq, Structural)]
pub struct PageLock {
    /// Which lock register of the bank
    pub register: u8,
    /// The single bit to write
    pub mask: u32,
}

/// The lock of page `page`.
pub open spec fn page_lock(page: int) -> PageLock {
    PageLock { register: (page / 32) as u8, mask: 1u32 << ((page % 32) as u32) }
}

/// The `CTRL` bits that mark the controller busy: a pending operation
/// (bit 24), a page erase (2), a mass erase (1) or a write (0).
pub open spec fn ctrl_busy(ctrl: u32) -> bool {
    ctrl & 0x0100_0007 != 0
}

/// Every page's base address lies in the flash and on that page, and every
/// address in the flash lies on a page, between its base address and the
/// next page's.
pub proof fn lemma_pages_and_addresses(page: int, address: int)
    ensures
        0 <= page < FLASH_PAGE_COUNT ==> FLASH_BASE <= page_address(page) < FLASH_END && page_of(
            page_address(page),
        ) == page,
        FLASH_BASE <= address < FLASH_END ==> {
            &&& 0 <= page_of(address) < FLASH_PAGE_COUNT
            &&& page_address(page_of(address)) <= address < page_address(page_of(address)) + FLASH_PAGE_SIZE
        },
{
    if FLASH_BASE <= address < FLASH_END {
        let off = address - FLASH_BASE;
        assert(0 <= off < 0x28_0000);
        assert(off / 0x4000 * 0x4000 <= off < off / 0x4000 * 0x4000 + 0x4000) by (nonlinear_arith)
            requires
                0 <= off,
        ;
        assert(off / 0x4000 < 160) by (nonlinear_arith)
            requires
                0 <= off < 0x28_0000,
        ;
    }
    if 0 <= page < FLASH_PAGE_COUNT {
        assert((0x4000 * page) / 0x4000 == page) by (nonlinear_arith)
            requires
                0 <= page,
        ;
    }
}

/// A 32-bit write lands where a 32-bit read of the same address looks: the
/// word that [`Flc::merge_32`] replaces, at index `(address % 16) / 4` of the
/// block [`Flc::block_address`] gives, is the word at `address`.
pub proof fn lemma_word_in_block(address: u32)
    requires
        address % 4 == 0,
    ensures
        0 <= (address % 16) / 4 < 4,
        (address - address % 16) + 4 * ((address % 16) / 4) == address,
{
}

/// Whether writing `data` over `current` only clears bits.
pub open spec fn only_clears(current: Seq<u32>, data: Seq<u32>) -> bool {
    forall|i: int| 0 <= i < 4 ==> current[i] & data[i] == data[i]
}

/// Programming flash can only turn bits from 1 to 0. A 128-bit write passes
/// its data check exactly when no bit is set in any of the four new words,
/// the last one included, that is clear in the word the flash holds there.
pub proof fn lemma_only_clears_every_word(current: Seq<u32>, data: Seq<u32>)
    requires
        current.len() == 4,
        data.len() == 4,
    ensures
        only_clears(current, data) <==> {
            &&& data[0] & !current[0] == 0
            &&& data[1] & !current[1] == 0
            &&& data[2] & !current[2] == 0
            &&& data[3] & !current[3] == 0
        },
{
    lemma_clears_bits(current[0], data[0]);
    lemma_clears_bits(current[1], data[1]);
    lemma_clears_bits(current[2], data[2]);
    lemma_clears_bits(current[3], data[3]);
    if data[0] & !current[0] == 0 && data[1] & !current[1] == 0 && data[2] & !current[2] == 0 && data[3]
        & !current[3] == 0 {
        assert forall|i: int| 0 <= i < 4 implies current[i] & data[i] == data[i] by {
            lemma_clears_bits(current[i], data[i]);
        }
    }
}

/// A word only clears bits of another exactly when it sets none that the
/// other has clear.
proof fn lemma_clears_bits(c: u32, d: u32)
    ensures
        (c & d == d) <==> (d & !c == 0),
{
    assert((c & d == d) <==> (d & !c == 0)) by (bit_vector);
}

/// # Flash Controller (FLC)
///
/// The controller runs from the system clock, divided down to 1 MHz.
/// - 2.5 MiB of flash memory in 160 pages of 16 KiB
/// - 128-bit write granularity
/// - Page erase and mass erase
/// - Read and write protection
pub struct Flc {
    sys_clk: Clock<SystemClock>,
}

impl View for Flc {
    type V = u32;

    /// The system clock frequency the controller runs from.
    closed spec fn view(&self) -> u32 {
        self.sys_clk.frequency
    }
}

impl Flc {
    /// A flash controller driven by `sys_clk`.
    pub fn new(sys_clk: Clock<SystemClock>) -> (flc: Self)
        ensures
            flc@ == sys_clk.frequency,
    {
        Flc { sys_clk }
    }

    /// The `CLKDIV` value that brings the system clock down to 1 MHz, as the
    /// low byte of the frequency in MHz.
    pub fn clock_divisor(&self) -> (div: u8)
        ensures
            div == (self@ / 1_000_000) as u8,
    {
        (self.sys_clk.frequency / 1_000_000) as u8
    }

    /// Whether the controller is busy, given the value of its `CTRL`
    /// register: an operation is pending, or a page erase, a mass erase or
    /// a write is under way.
    pub fn is_busy(&self, ctrl: u32) -> (busy: bool)
        ensures
            busy == ctrl_busy(ctrl),
    {
        ctrl & 0x0100_0007 != 0
    }

    /// Check if an address is within the valid flash memory range.
    pub fn check_address(&self, address: u32) -> (result: Result<(), FlashError>)
        ensures
            result == (if in_flash(address) {
                Ok(())
            } else {
                Err(FlashError::InvalidAddress)
            }),
    {
        if address < FLASH_BASE || address >= FLASH_END {
            return Err(FlashError::InvalidAddress);
        }
        Ok(())
    }

    /// The controller's `ADDR` value for a flash address: its offset from
    /// the start of the flash.
    pub fn physical_address(&self, address: u32) -> (result: Result<u32, FlashError>)
        ensures
            result == (if in_flash(address) {
                Ok((address - FLASH_BASE) as u32)
            } else {
                Err(FlashError::InvalidAddress)
            }),
    {
        self.check_address(address)?;
        Ok(address - FLASH_BASE)
    }

    /// Check if a page number is within the flash.
    pub fn check_page_number(&self, page_number: u32) -> (result: Result<(), FlashError>)
        ensures
            result == (if page_number < FLASH_PAGE_COUNT {
                Ok(())
            } else {
                Err(FlashError::InvalidAddress)
            }),
    {
        if page_number >= FLASH_PAGE_COUNT {
            return Err(FlashError::InvalidAddress);
        }
        Ok(())
    }

    /// Get the base address of a page
    pub fn get_address(&self, page_number: u32) -> (result: Result<u32, FlashError>)
        ensures
            result == (if page_number < FLASH_PAGE_COUNT {
                Ok(page_address(page_number as int) as u32)
            } else {
                Err(FlashError::InvalidAddress)
            }),
    {
        self.check_page_number(page_number)?;
        let address = FLASH_BASE + FLASH_PAGE_SIZE * page_number;
        Ok(address)
    }

    /// Get the page number of a flash address.
    pub fn get_page_number(&self, address: u32) -> (result: Result<u32, FlashError>)
        ensures
            result == (if in_flash(address) {
                Ok(page_of(address as int) as u32)
            } else {
                Err(FlashError::InvalidAddress)
            }),
    {
        self.check_address(address)?;
        let offset = address - FLASH_BASE;
        let page_num = offset >> FLASH_PAGE_SHIFT;
        assert(offset >> 14u32 == offset / 0x4000) by (bit_vector);
        // Redundant: every address in the flash is on one of its pages.
        if page_num >= FLASH_PAGE_COUNT {
            return Err(FlashError::InvalidAddress);
        }
        Ok(page_num)
    }

    /// The write lock that protects the page holding `address` from write
    /// and erase operations until the next reset.
    pub fn disable_page_write(&self, address: u32) -> (result: Result<PageLock, FlashError>)
        ensures
            result == (if in_flash(address) {
                Ok(page_lock(page_of(address as int)))
            } else {
                Err(FlashError::InvalidAddress)
            }),
    {
        self.lock_of(address)
    }

    /// The read lock that protects the page holding `address` from read
    /// operations until the next reset.
    pub fn disable_page_read(&self, address: u32) -> (result: Result<PageLock, FlashError>)
        ensures
            result == (if in_flash(address) {
                Ok(page_lock(page_of(address as int)))
            } else {
                Err(FlashError::InvalidAddress)
            }),
    {
        self.lock_of(address)
    }

    fn lock_of(&self, address: u32) -> (result: Result<PageLock, FlashError>)
        ensures
            result == (if in_flash(address) {
                Ok(page_lock(page_of(address as int)))
            } else {
                Err(FlashError::InvalidAddress)
            }),
    {
        let page = self.get_page_number(address)?;
        proof {
            lemma_pages_and_addresses(0, address as int);
        }
        Ok(PageLock { register: (page / 32) as u8, mask: 1u32 << (page % 32) })
    }

    /// Check that `address` is in the flash and aligned to `alignment`
    /// bytes, a power of two from 1 to 16: the check every read and write
    /// makes before it touches the flash.
    pub fn check_aligned(&self, address: u32, alignment: u32) -> (result: Result<(), FlashError>)
        requires
            alignment == 1 || alignment == 2 || alignment == 4 || alignment == 8 || alignment == 16,
        ensures
            result == (if address % alignment == 0 && in_flash(address) {
                Ok(())
            } else {
                Err(FlashError::InvalidAddress)
            }),
    {
        let mask = alignment - 1;
        assert(address & mask == 0 <==> address % alignment == 0) by (bit_vector)
            requires
                alignment == 1 || alignment == 2 || alignment == 4 || alignment == 8 || alignment
                    == 16,
                mask == alignment - 1,
        ;
        if address & mask != 0 {
            return Err(FlashError::InvalidAddress);
        }
        self.check_address(address)
    }

    /// The checks of a 128-bit write at `address`, given the four words the
    /// flash `current`ly holds there: the address must be 16-byte aligned
    /// and in the flash, and the new data may only clear bits.
    pub fn write_128(&self, address: u32, data: &[u32; 4], current: &[u32; 4]) -> (result: Result<(), FlashError>)
        ensures
            result == (if !(address % 16 == 0 && in_flash(address)) {
                Err(FlashError::InvalidAddress)
            } else if !only_clears(current@, data@) {
                Err(FlashError::NeedsErase)
            } else {
                Ok(())
            }),
    {
        self.check_aligned(address, 16)?;
        let mut i: usize = 0;
        while i < 4
            invariant
                i <= 4,
                address % 16 == 0 && in_flash(address),
                forall|j: int| 0 <= j < i ==> current@[j] & data@[j] == data@[j],
            decreases 4 - i,
        {
            if (current[i] & data[i]) != data[i] {
                return Err(FlashError::NeedsErase);
            }
            i += 1;
        }
        Ok(())
    }

    /// The 128-bit block holding the 32-bit word at `address`, which must be
    /// 4-byte aligned and in the flash.
    pub fn block_address(&self, address: u32) -> (result: Result<u32, FlashError>)
        ensures
            result == (if address % 4 == 0 && in_flash(address) {
                Ok((address - address % 16) as u32)
            } else {
                Err(FlashError::InvalidAddress)
            }),
    {
        self.check_aligned(address, 4)?;
        let block = address & !0b1111u32;
        assert(address & !0b1111u32 == address - address % 16) by (bit_vector);
        Ok(block)
    }

    /// The 128-bit block `block` with the 32-bit word at `address` replaced by
    /// `data`; the other three words are kept.
    pub fn merge_32(address: u32, block: [u32; 4], data: u32) -> (merged: [u32; 4])
        ensures
            merged@ == block@.update(((address % 16) / 4) as int, data),
    {
        let index = (address & 0b1100) >> 2;
        assert((address & 0b1100) >> 2 == (address % 16) / 4) by (bit_vector);
        let mut merged = block;
        merged[index as usize] = data;
        merged
    }
}

} // verus!
