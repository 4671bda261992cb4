//! Status words returned by firmware calls, and the errors this layer
//! reports to its caller.

use vstd::prelude::*;

verus! {

/// The status word of a successful firmware call.
pub const EFI_SUCCESS: u64 = 0;

/// The distinguished status word by which a size probe reports that the
/// supplied buffer is too small: specification error number 5 with the high
/// bit set.
pub const EFI_BUFFER_TOO_SMALL: u64 = 0x8000000000000005;

/// A machine-word result of a firmware call: zero means success, the
/// distinguished "buffer too small" word asks for a repeated size probe,
/// and any other non-zero word is a hard failure.
#[derive(Clone, Copy, PartialEq, Eq, Structural, Debug)]
pub struct EfiStatus(pub u64);

impl EfiStatus {
    pub open spec fn is_success(self) -> bool {
        self.0 == EFI_SUCCESS
    }

    pub open spec fn is_buffer_too_small(self) -> bool {
        self.0 == EFI_BUFFER_TOO_SMALL
    }

    pub fn success(&self) -> (r: bool)
        ensures
            r == self.is_success(),
    {
        self.0 == EFI_SUCCESS
    }

    pub fn buffer_too_small(&self) -> (r: bool)
        ensures
            r == self.is_buffer_too_small(),
    {
        self.0 == EFI_BUFFER_TOO_SMALL
    }
}

/// What went wrong in a firmware interaction.
///
/// The embedding program decides what each class means for it: a probe that
/// answers anything but "buffer too small", a zero probe size, a failed
/// allocation, or a malformed fetch answer leave the memory layout
/// unverifiable and are grounds to abort; a refused exit handshake is
/// recoverable by retrying the whole retrieval; registering a second table
/// is a logic error in the caller.
#[derive(Clone, Copy, PartialEq, Eq, Structural, Debug)]
pub enum EfiError {
    /// No firmware service table has been registered.
    TableUnset,
    /// A second registration of the firmware service table was attempted.
    AlreadyRegistered,
    /// The size probe returned this status instead of "buffer too small";
    /// success here is as much a contract violation as any other word.
    ProbeUnexpectedStatus(EfiStatus),
    /// The size probe reported that a zero-byte buffer would suffice.
    ProbeSizeZero,
    /// The probe reported a map so large that no whole number of pages
    /// covering it fits in an address word.
    MapTooLarge,
    /// The page allocation call failed with this status.
    AllocationFailed(EfiStatus),
    /// The memory-map fetch failed with this status.
    FetchFailed(EfiStatus),
    /// The memory-map fetch claimed success but reported more bytes than the
    /// buffer it was handed could hold.
    FetchSizeInvalid,
    /// The firmware refused the exit-boot-services call with this status;
    /// the caller may retry from a fresh map retrieval.
    ExitRefused(EfiStatus),
}

} // verus!
