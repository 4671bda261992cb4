//! Page regions: page-granular byte buffers obtained from the firmware
//! allocator and released back to it exactly once.

use vstd::prelude::*;

verus! {

/// The size in bytes of one firmware page.
pub const PAGE_SIZE: usize = 4096;

/// The number of whole pages needed to cover `min_size` bytes:
/// the ceiling of `min_size / PAGE_SIZE`.
pub open spec fn spec_pages_for(min_size: nat) -> nat {
    if min_size % (PAGE_SIZE as nat) == 0 {
        min_size / (PAGE_SIZE as nat)
    } else {
        min_size / (PAGE_SIZE as nat) + 1
    }
}

/// Computes the page count that covers a request of `min_size` bytes.
///
/// The result is the least page count whose byte capacity reaches
/// `min_size`: the ceiling of `min_size / PAGE_SIZE`.
pub fn pages_for(min_size: usize) -> (pages: usize)
    requires
        min_size >= 1,
    ensures
        pages == spec_pages_for(min_size as nat),
        pages >= 1,
        pages * PAGE_SIZE >= min_size,
        (pages - 1) * PAGE_SIZE < min_size,
{
    proof {
        vstd::arithmetic::div_mod::lemma_fundamental_div_mod(
            min_size as int,
            PAGE_SIZE as int,
        );
    }
    let quotient: usize = min_size / PAGE_SIZE;
    if min_size % PAGE_SIZE == 0 {
        quotient
    } else {
        quotient + 1
    }
}

/// The single free call that releases a page region: the firmware must be
/// handed the same address and page count the region was allocated with.
#[derive(Clone, Copy, PartialEq, Eq, Structural, Debug)]
pub struct FreePagesCall {
    pub address: usize,
    pub pages: usize,
}

/// A page-aligned byte region owned by this program for its lifetime.
///
/// The firmware allocated `pages` whole pages at `address`; the region's
/// logical used size never exceeds that capacity.  The region is released
/// by [`SimplePage::release`], which consumes it, so no region is ever
/// released twice.
pub struct SimplePage {
    buffer: Vec<u8>,
    address: usize,
    pages: usize,
}

impl SimplePage {
    /// The bytes of the used part of the region.
    pub closed spec fn bytes(&self) -> Seq<u8> {
        self.buffer@
    }

    /// The logical used size in bytes.
    pub open spec fn used(&self) -> nat {
        self.bytes().len()
    }

    /// The address at which the firmware placed the region.
    pub closed spec fn base(&self) -> usize {
        self.address
    }

    /// The whole number of pages the firmware allocated.
    pub closed spec fn page_count(&self) -> usize {
        self.pages
    }

    /// The byte capacity of the region: all of its pages.
    pub open spec fn capacity(&self) -> nat {
        (self.page_count() as nat) * (PAGE_SIZE as nat)
    }

    /// A region is well formed when it holds at least one page, its
    /// capacity fits in an address word, and its used size is within its
    /// capacity.
    pub open spec fn wf(&self) -> bool {
        &&& self.page_count() >= 1
        &&& self.capacity() <= usize::MAX
        &&& self.used() <= self.capacity()
    }

    /// Wraps a fresh firmware grant of `pages` pages at `address` as a
    /// region whose used size starts at the full capacity, every byte
    /// readable as zero until something is written.
    pub fn from_grant(address: usize, pages: usize) -> (r: SimplePage)
        requires
            pages >= 1,
            pages * PAGE_SIZE <= usize::MAX,
        ensures
            r.wf(),
            r.base() == address,
            r.page_count() == pages,
            r.used() == r.capacity(),
            forall|i: int| 0 <= i < r.bytes().len() ==> r.bytes()[i] == 0,
    {
        let capacity: usize = pages * PAGE_SIZE;
        let mut buffer: Vec<u8> = Vec::new();
        while buffer.len() < capacity
            invariant
                buffer@.len() <= capacity,
                forall|i: int| 0 <= i < buffer@.len() ==> buffer@[i] == 0,
            decreases capacity - buffer@.len(),
        {
            buffer.push(0u8);
        }
        SimplePage { buffer, address, pages }
    }

    /// The used part of the region.
    pub fn get_slice(&self) -> (r: &[u8])
        ensures
            r@ == self.bytes(),
    {
        self.buffer.as_slice()
    }

    /// The used part of the region, writable.  Writes through the returned
    /// slice become the region's bytes; element writes keep the length and
    /// so keep the region well formed.
    pub fn get_mut_slice(&mut self) -> (r: &mut [u8])
        ensures
            r@ == old(self).bytes(),
            final(self).bytes() == final(r)@,
            final(self).base() == old(self).base(),
            final(self).page_count() == old(self).page_count(),
            old(self).wf() && final(r)@.len() == old(self).bytes().len() ==> final(self).wf(),
    {
        self.buffer.as_mut_slice()
    }

    /// The logical used size in bytes.
    pub fn len(&self) -> (r: usize)
        ensures
            r == self.used(),
    {
        self.buffer.len()
    }

    /// The address at which the firmware placed the region.
    pub fn address(&self) -> (r: usize)
        ensures
            r == self.base(),
    {
        self.address
    }

    /// The whole number of pages the firmware allocated.
    pub fn pages(&self) -> (r: usize)
        ensures
            r == self.page_count(),
    {
        self.pages
    }

    /// Replaces the region's used bytes: the firmware wrote `data` into the
    /// region, and the used size shrinks to what was written.
    pub fn load(&mut self, data: Vec<u8>)
        requires
            old(self).wf(),
            data@.len() <= old(self).capacity(),
        ensures
            final(self).wf(),
            final(self).bytes() == data@,
            final(self).base() == old(self).base(),
            final(self).page_count() == old(self).page_count(),
    {
        self.buffer = data;
    }

    /// Shrinks the logical used size to `size` bytes, keeping their values.
    pub fn shrink(&mut self, size: usize)
        requires
            size <= old(self).used(),
        ensures
            final(self).bytes() == old(self).bytes().take(size as int),
            final(self).base() == old(self).base(),
            final(self).page_count() == old(self).page_count(),
            old(self).wf() ==> final(self).wf(),
    {
        self.buffer.truncate(size);
    }

    /// Releases the region: consumes it and returns the one free call the
    /// firmware must be handed, carrying the same address and page count
    /// the region was allocated with.  Since the region is consumed, no
    /// second free call can ever be produced for it.
    pub fn release(self) -> (r: FreePagesCall)
        ensures
            r.address == self.base(),
            r.pages == self.page_count(),
    {
        FreePagesCall { address: self.address, pages: self.pages }
    }
}

} // verus!
