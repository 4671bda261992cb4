use efi_core::memtype::{EfiAllocateType, EfiMemoryType};

#[test]
fn allocation_strategy_code() {
    assert_eq!(EfiAllocateType::AllocateAnyPages.code(), 0);
}

#[test]
fn memory_class_codes() {
    assert_eq!(EfiMemoryType::ReservedMemoryType.code(), 0);
    assert_eq!(EfiMemoryType::LoaderData.code(), 2);
    assert_eq!(EfiMemoryType::ConventionalMemory.code(), 7);
    assert_eq!(EfiMemoryType::UnacceptedMemoryType.code(), 15);
}

#[test]
fn memory_class_round_trip() {
    for code in 0u32..16 {
        let t = EfiMemoryType::from_code(code);
        assert_eq!(t.code(), code);
    }
}

#[test]
fn unknown_memory_codes_fall_back() {
    assert_eq!(EfiMemoryType::from_code(16), EfiMemoryType::UnacceptedMemoryType);
    assert_eq!(EfiMemoryType::from_code(u32::MAX), EfiMemoryType::UnacceptedMemoryType);
}
