//! The firmware service table and its write-once registry.
//!
//! The firmware hands the program one root service table at entry.  The
//! table itself is a machine-level record that only the embedding program
//! can dereference; this layer models it by the one datum its logic reads,
//! the table's address, and keeps the process-wide registration discipline:
//! the table is registered at most once and never changes afterwards.

use vstd::prelude::*;

use crate::status::EfiError;

verus! {

/// An opaque handle the firmware assigned to the loaded program image.
#[derive(Clone, Copy, PartialEq, Eq, Structural, Debug)]
pub struct EfiHandle(pub usize);

/// The root firmware service table, identified by the address at which the
/// firmware placed it.  The layer never reads through the table; the
/// embedding program dereferences its function pointers when it performs
/// the requests this layer issues.
#[derive(Clone, Copy, PartialEq, Eq, Structural, Debug)]
pub struct EfiSystemTable {
    pub address: usize,
}

/// The write-once registration of the firmware service table.
///
/// Lifecycle: initialized unset, set exactly once, read many times, never
/// reset.  A second registration attempt is reported as
/// [`EfiError::AlreadyRegistered`] and leaves the registry unchanged; the
/// caller treats it as a fatal logic error.
pub struct SystemTableRegistry {
    table: Option<EfiSystemTable>,
}

impl SystemTableRegistry {
    /// The registered table, if any.
    pub closed spec fn registered(&self) -> Option<EfiSystemTable> {
        self.table
    }

    pub open spec fn is_registered(&self) -> bool {
        self.registered() is Some
    }

    /// A fresh, unset registry.
    pub fn new() -> (r: SystemTableRegistry)
        ensures
            !r.is_registered(),
    {
        SystemTableRegistry { table: None }
    }

    /// Registers the firmware service table.  Succeeds exactly when no
    /// table has been registered before; a second attempt fails and changes
    /// nothing.
    pub fn register_system_table(&mut self, table: EfiSystemTable) -> (r: Result<(), EfiError>)
        ensures
            !old(self).is_registered() ==> r is Ok && final(self).registered() == Some(table),
            old(self).is_registered() ==> r == Err::<(), EfiError>(EfiError::AlreadyRegistered)
                && final(self).registered() == old(self).registered(),
    {
        match self.table {
            None => {
                self.table = Some(table);
                Ok(())
            },
            Some(_) => Err(EfiError::AlreadyRegistered),
        }
    }

    /// The registered table: `None` while the registry is unset, and
    /// forever afterwards the one table that was registered.
    pub fn system_table(&self) -> (r: Option<EfiSystemTable>)
        ensures
            r == self.registered(),
    {
        self.table
    }
}

} // verus!
