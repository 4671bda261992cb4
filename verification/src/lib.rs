//! Firmware-interaction layer of a pre-operating-system boot stage.
//!
//! The layer talks to a standardized firmware boot-services table: it
//! registers the table once, allocates page-aligned memory, encodes and
//! flushes diagnostic text, retrieves the physical memory map through the
//! two-phase probe/fetch protocol, and performs the one-shot handshake that
//! terminates firmware boot services.
//!
//! Every firmware call is made through a machine-level function pointer that
//! only the surrounding program can dereference.  The library therefore
//! states each interaction as a request the caller must issue and a response
//! the caller hands back; the sequencing rules, the size arithmetic, the
//! encoding, and the error classification are all verified here, while the
//! raw calls stay with the embedding program.

pub mod boot;
pub mod console;
pub mod memtype;
pub mod page;
pub mod status;
pub mod table;
