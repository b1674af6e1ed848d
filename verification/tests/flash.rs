use core::marker::PhantomData;
use max7800x_hal::flc::{
    FlashError, Flc, PageLock, FLASH_BASE, FLASH_END, FLASH_PAGE_COUNT, FLASH_PAGE_SIZE,
};
use max7800x_hal::gcr::clocks::{Clock, SystemClock};

fn flc(frequency: u32) -> Flc {
    Flc::new(Clock::<SystemClock> { _src: PhantomData, frequency })
}

#[test]
fn the_flash_has_160_pages_of_16_kib() {
    assert_eq!(FLASH_PAGE_COUNT, 160);
    assert_eq!(FLASH_PAGE_SIZE, 0x4000);
    assert_eq!(FLASH_END, 0x1028_0000);
}

#[test]
fn the_divisor_brings_the_clock_to_one_megahertz() {
    assert_eq!(flc(120_000_000).clock_divisor(), 120);
    assert_eq!(flc(60_000_000).clock_divisor(), 60);
    assert_eq!(flc(7_372_800).clock_divisor(), 7);
}

#[test]
fn addresses_outside_the_flash_are_rejected() {
    let f = flc(60_000_000);
    assert_eq!(f.check_address(FLASH_BASE), Ok(()));
    assert_eq!(f.check_address(FLASH_END - 1), Ok(()));
    assert_eq!(f.check_address(FLASH_END), Err(FlashError::InvalidAddress));
    assert_eq!(f.check_address(FLASH_BASE - 1), Err(FlashError::InvalidAddress));
    assert_eq!(f.check_page_number(159), Ok(()));
    assert_eq!(f.check_page_number(160), Err(FlashError::InvalidAddress));
}

#[test]
fn pages_and_addresses_convert_both_ways() {
    let f = flc(60_000_000);
    assert_eq!(f.get_address(0), Ok(0x1000_0000));
    assert_eq!(f.get_address(48), Ok(0x100c_0000));
    assert_eq!(f.get_address(159), Ok(0x1027_c000));
    assert_eq!(f.get_address(160), Err(FlashError::InvalidAddress));

    assert_eq!(f.get_page_number(0x1000_0000), Ok(0));
    assert_eq!(f.get_page_number(0x1000_3fff), Ok(0));
    assert_eq!(f.get_page_number(0x1000_4000), Ok(1));
    assert_eq!(f.get_page_number(0x1027_ffff), Ok(159));
    assert_eq!(f.get_page_number(0x1028_0000), Err(FlashError::InvalidAddress));

    for page in 0..FLASH_PAGE_COUNT {
        let address = f.get_address(page).unwrap();
        assert_eq!(f.get_page_number(address), Ok(page));
        assert_eq!(f.get_page_number(address + FLASH_PAGE_SIZE - 1), Ok(page));
    }
}

#[test]
fn alignment_is_checked_before_the_range() {
    let f = flc(60_000_000);
    assert_eq!(f.check_aligned(0x1006_0004, 4), Ok(()));
    assert_eq!(f.check_aligned(0x1006_0002, 4), Err(FlashError::InvalidAddress));
    assert_eq!(f.check_aligned(0x1006_0010, 16), Ok(()));
    assert_eq!(f.check_aligned(0x1006_0008, 16), Err(FlashError::InvalidAddress));
    assert_eq!(f.check_aligned(0x2000_0000, 16), Err(FlashError::InvalidAddress));
    assert_eq!(f.check_aligned(0x1006_0003, 1), Ok(()));
}

#[test]
fn a_write_may_only_clear_bits() {
    let f = flc(60_000_000);
    let erased = [u32::MAX; 4];
    let data = [0x0403_0201, 0x0807_0605, 0x0c0b_0a09, 0x100f_0e0d];
    assert_eq!(f.write_128(0x1006_0000, &data, &erased), Ok(()));
    assert_eq!(f.write_128(0x1006_0000, &data, &data), Ok(()));
    assert_eq!(
        f.write_128(0x1006_0000, &erased, &data),
        Err(FlashError::NeedsErase)
    );
    assert_eq!(
        f.write_128(0x1006_0004, &data, &erased),
        Err(FlashError::InvalidAddress)
    );
    assert_eq!(
        f.write_128(FLASH_END, &data, &erased),
        Err(FlashError::InvalidAddress)
    );
}

/// A 32-bit write replaces one word of its 128-bit block and keeps the rest.
#[test]
fn a_word_is_merged_into_its_block() {
    let f = flc(60_000_000);
    assert_eq!(f.block_address(0x1006_0004), Ok(0x1006_0000));
    assert_eq!(f.block_address(0x1006_001c), Ok(0x1006_0010));
    assert_eq!(f.block_address(0x1006_0006), Err(FlashError::InvalidAddress));
    assert_eq!(f.block_address(0x0fff_fffc), Err(FlashError::InvalidAddress));

    let block = [u32::MAX; 4];
    assert_eq!(
        Flc::merge_32(0x1006_0004, block, 0x7856_3412),
        [u32::MAX, 0x7856_3412, u32::MAX, u32::MAX]
    );
    assert_eq!(
        Flc::merge_32(0x1006_001c, block, 0),
        [u32::MAX, u32::MAX, u32::MAX, 0]
    );
}

#[test]
fn busy_means_pending_or_an_operation_under_way() {
    let f = flc(60_000_000);
    assert!(!f.is_busy(0));
    assert!(f.is_busy(1 << 24));
    assert!(f.is_busy(1 << 2));
    assert!(f.is_busy(1 << 1));
    assert!(f.is_busy(1));
    // The unlock code and the erase code are not activity.
    assert!(!f.is_busy(0x2000_5500));
}

#[test]
fn page_locks_take_one_bit_per_page() {
    let f = flc(60_000_000);
    assert_eq!(
        f.disable_page_write(0x1000_0000),
        Ok(PageLock { register: 0, mask: 1 })
    );
    assert_eq!(
        f.disable_page_write(0x1007_c000),
        Ok(PageLock { register: 0, mask: 1 << 31 })
    );
    assert_eq!(
        f.disable_page_read(0x1008_4000),
        Ok(PageLock { register: 1, mask: 1 << 1 })
    );
    assert_eq!(
        f.disable_page_read(0x100f_ffff),
        Ok(PageLock { register: 1, mask: 1 << 31 })
    );
    // Every page has a lock bit, up to the last.
    assert_eq!(
        f.disable_page_write(0x1010_0000),
        Ok(PageLock { register: 2, mask: 1 })
    );
    assert_eq!(
        f.disable_page_read(0x1027_ffff),
        Ok(PageLock { register: 4, mask: 1 << 31 })
    );
    assert_eq!(
        f.disable_page_write(0x0fff_0000),
        Err(FlashError::InvalidAddress)
    );
    assert_eq!(
        f.disable_page_read(FLASH_END),
        Err(FlashError::InvalidAddress)
    );
}

#[test]
fn the_controller_takes_offsets_into_the_flash() {
    let f = flc(60_000_000);
    assert_eq!(f.physical_address(0x1000_0000), Ok(0));
    assert_eq!(f.physical_address(0x100c_0004), Ok(0xc_0004));
    assert_eq!(f.physical_address(FLASH_END - 1), Ok(0x27_ffff));
    assert_eq!(f.physical_address(FLASH_END), Err(FlashError::InvalidAddress));
    assert_eq!(f.physical_address(0), Err(FlashError::InvalidAddress));
}
