use efi_core::boot::{page_from_allocation, AllocResponse};
use efi_core::page::{pages_for, SimplePage, PAGE_SIZE};
use efi_core::status::{EfiError, EfiStatus};

#[test]
fn page_count_is_the_ceiling() {
    assert_eq!(pages_for(1), 1);
    assert_eq!(pages_for(4095), 1);
    assert_eq!(pages_for(4096), 1);
    assert_eq!(pages_for(4097), 2);
    assert_eq!(pages_for(5000), 2);
    assert_eq!(pages_for(8192), 2);
    assert_eq!(pages_for(8193), 3);
}

#[test]
fn capacity_covers_the_request() {
    for n in [1usize, 7, 4096, 4097, 10_000, 65_536] {
        let pages = pages_for(n);
        assert!(pages * PAGE_SIZE >= n);
        assert!((pages - 1) * PAGE_SIZE < n);
    }
}

#[test]
fn grant_starts_full_and_zeroed() {
    let page = SimplePage::from_grant(0x8000, 2);
    assert_eq!(page.len(), 2 * PAGE_SIZE);
    assert_eq!(page.address(), 0x8000);
    assert_eq!(page.pages(), 2);
    assert!(page.get_slice().iter().all(|b| *b == 0));
}

#[test]
fn mutable_slice_writes_are_visible() {
    let mut page = SimplePage::from_grant(0x4000, 1);
    {
        let slice = page.get_mut_slice();
        slice[0] = 0xAB;
        slice[4095] = 0xCD;
    }
    assert_eq!(page.get_slice()[0], 0xAB);
    assert_eq!(page.get_slice()[4095], 0xCD);
}

#[test]
fn shrink_keeps_a_prefix() {
    let mut page = SimplePage::from_grant(0x4000, 1);
    {
        let slice = page.get_mut_slice();
        slice[0] = 1;
        slice[1] = 2;
        slice[2] = 3;
    }
    page.shrink(2);
    assert_eq!(page.get_slice(), &[1, 2]);
    assert_eq!(page.pages(), 1);
}

#[test]
fn release_hands_back_the_original_address_and_count() {
    let page = SimplePage::from_grant(0x9000, 3);
    let free = page.release();
    assert_eq!(free.address, 0x9000);
    assert_eq!(free.pages, 3);
}

#[test]
fn allocation_succeeds_only_on_success_status() {
    let grant = AllocResponse { status: EfiStatus(0), address: 0x6000 };
    let page = page_from_allocation(5000, &grant).unwrap();
    assert_eq!(page.pages(), 2);
    assert_eq!(page.len(), 8192);
    assert_eq!(page.address(), 0x6000);

    let refusal = AllocResponse { status: EfiStatus(0x8000_0000_0000_0009), address: 0 };
    match page_from_allocation(5000, &refusal) {
        Err(e) => assert_eq!(e, EfiError::AllocationFailed(EfiStatus(0x8000_0000_0000_0009))),
        Ok(_) => panic!("allocation must fail on a non-success status"),
    }
}
