use efi_core::status::EfiError;
use efi_core::table::{EfiSystemTable, SystemTableRegistry};

#[test]
fn fresh_registry_is_unset() {
    let reg = SystemTableRegistry::new();
    assert!(reg.system_table().is_none());
}

#[test]
fn register_once_then_query_returns_same_pointer() {
    let mut reg = SystemTableRegistry::new();
    let table = EfiSystemTable { address: 0x7f00_1000 };
    assert!(reg.register_system_table(table).is_ok());
    assert_eq!(reg.system_table(), Some(table));
}

#[test]
fn register_twice_is_refused() {
    let mut reg = SystemTableRegistry::new();
    let first = EfiSystemTable { address: 0x1000 };
    let second = EfiSystemTable { address: 0x2000 };
    assert!(reg.register_system_table(first).is_ok());
    let refused = reg.register_system_table(second);
    assert_eq!(refused, Err(EfiError::AlreadyRegistered));
    assert_eq!(reg.system_table(), Some(first));
}
