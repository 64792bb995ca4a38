use esp_hal_qspi::memory::{
    is_address_in_dram, is_slice_in_dram, DmaOperationKind, DRAM_END, DRAM_START,
};

#[test]
fn dram_bounds() {
    assert_eq!(DRAM_START, 0x3FC0_0000);
    assert_eq!(DRAM_END, 0x4000_0000);
    assert!(!is_address_in_dram(0));
    assert!(!is_address_in_dram(0x3FBF_FFFF));
    assert!(is_address_in_dram(0x3FC0_0000));
    assert!(is_address_in_dram(0x3FCE_1234));
    assert!(is_address_in_dram(0x3FFF_FFFF));
    assert!(!is_address_in_dram(0x4000_0000));
    assert!(!is_address_in_dram(usize::MAX));
}

#[test]
fn flash_and_external_ram_are_not_dram() {
    assert!(!is_address_in_dram(0x3C00_0000));
    assert!(!is_address_in_dram(0x3D80_0000));
}

#[test]
fn slice_goes_by_its_address() {
    let heap: Vec<u8> = vec![7; 64];
    let stack: [u8; 16] = [7; 16];
    for slice in [&heap[..], &heap[10..], &stack[..], &stack[16..], &[][..]] {
        let in_dram = is_address_in_dram(slice.as_ptr() as usize);
        assert_eq!(is_slice_in_dram(slice), in_dram);
        assert_eq!(
            DmaOperationKind::for_write(slice),
            DmaOperationKind::for_address(slice.as_ptr() as usize)
        );
    }
}

#[test]
fn kind_by_placement() {
    assert_eq!(DmaOperationKind::for_placement(true), DmaOperationKind::InPlace);
    assert_eq!(DmaOperationKind::for_placement(false), DmaOperationKind::Copied);
}

#[test]
fn kind_by_address() {
    assert_eq!(DmaOperationKind::for_address(0x3C00_0000), DmaOperationKind::Copied);
    assert_eq!(DmaOperationKind::for_address(0x3FBF_FFFF), DmaOperationKind::Copied);
    assert_eq!(DmaOperationKind::for_address(0x3FC0_0000), DmaOperationKind::InPlace);
    assert_eq!(DmaOperationKind::for_address(0x3FFF_FFFF), DmaOperationKind::InPlace);
    assert_eq!(DmaOperationKind::for_address(0x4000_0000), DmaOperationKind::Copied);
}
