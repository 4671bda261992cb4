//! The boot-services protocol: page allocation, the two-phase memory-map
//! retrieval, and the exit handshake.
//!
//! Every firmware call is a [`BootRequest`] this layer hands to the
//! embedding program, which performs the machine-level call and hands the
//! answer back.  Each protocol phase is its own type, so a response can
//! only ever be applied to the phase that asked for it, and each phase
//! records the calls issued so far; the contracts pin the exact call
//! sequence, in particular that the exit call follows its map fetch with
//! no allocation or free in between.

use vstd::prelude::*;

use crate::memtype::{EfiAllocateType, EfiMemoryType};
use crate::page::{pages_for, spec_pages_for, SimplePage, PAGE_SIZE};
use crate::status::{EfiError, EfiStatus};
use crate::table::{EfiHandle, SystemTableRegistry};

verus! {

/// One call into the firmware boot services, as the embedding program must
/// perform it.
#[derive(Clone, Copy, PartialEq, Eq, Structural, Debug)]
pub enum BootRequest {
    /// Call the get-memory-map service with a buffer of `buffer_size` bytes
    /// at `buffer_address`.  Address zero with size zero is the null size
    /// probe.
    GetMemoryMap { buffer_address: usize, buffer_size: usize },
    /// Call the page allocation service for `pages` whole pages.
    AllocatePages { allocate_type: EfiAllocateType, memory_type: EfiMemoryType, pages: usize },
    /// Call the exit-boot-services service with the image handle and the
    /// map key of the last fetch.
    ExitBootServices { image_handle: EfiHandle, map_key: usize },
}

/// The null size probe: a get-memory-map call with no buffer.
pub open spec fn spec_probe_request() -> BootRequest {
    BootRequest::GetMemoryMap { buffer_address: 0, buffer_size: 0 }
}

/// An allocation of `pages` pages at any address, classed as loader data.
pub open spec fn spec_allocation_request(pages: usize) -> BootRequest {
    BootRequest::AllocatePages {
        allocate_type: EfiAllocateType::AllocateAnyPages,
        memory_type: EfiMemoryType::LoaderData,
        pages,
    }
}

/// The map fetch into a buffer of `size` bytes at `address`.
pub open spec fn spec_fetch_request(address: usize, size: usize) -> BootRequest {
    BootRequest::GetMemoryMap { buffer_address: address, buffer_size: size }
}

/// The exit-boot-services call for `handle` with map key `key`.
pub open spec fn spec_exit_request(handle: EfiHandle, key: usize) -> BootRequest {
    BootRequest::ExitBootServices { image_handle: handle, map_key: key }
}

/// The firmware's answer to a get-memory-map call: the status word, the
/// four values returned through the call's out-parameters, and the bytes
/// the firmware wrote into the supplied buffer (none for the null probe).
pub struct MapResponse {
    pub status: EfiStatus,
    pub size: usize,
    pub key: usize,
    pub descriptor_size: usize,
    pub descriptor_version: u32,
    pub data: Vec<u8>,
}

/// The firmware's answer to a page allocation call: the status word and
/// the address of the granted pages.
#[derive(Clone, Copy, PartialEq, Eq, Structural, Debug)]
pub struct AllocResponse {
    pub status: EfiStatus,
    pub address: usize,
}

/// The allocation call that covers a request of `min_size` bytes:
/// `ceil(min_size / PAGE_SIZE)` pages, any address, loader data.
pub fn allocation_request(min_size: usize) -> (r: BootRequest)
    requires
        min_size >= 1,
    ensures
        r == spec_allocation_request(spec_pages_for(min_size as nat) as usize),
{
    let pages: usize = pages_for(min_size);
    BootRequest::AllocatePages {
        allocate_type: EfiAllocateType::AllocateAnyPages,
        memory_type: EfiMemoryType::LoaderData,
        pages,
    }
}

/// Turns the firmware's answer to an allocation call into an owned page
/// region.  Succeeds exactly when the status is success; the region then
/// covers the requested size with whole-page slack, its used size starts
/// at the full capacity, and every byte reads as zero.  Any other status
/// is an allocation failure, fatal to the caller.
pub fn page_from_allocation(min_size: usize, resp: &AllocResponse) -> (r: Result<
    SimplePage,
    EfiError,
>)
    requires
        min_size >= 1,
        min_size <= usize::MAX - (PAGE_SIZE - 1),
    ensures
        resp.status.is_success() <==> r is Ok,
        r matches Ok(page) ==> {
            &&& page.wf()
            &&& page.base() == resp.address
            &&& page.page_count() == spec_pages_for(min_size as nat)
            &&& page.used() == page.capacity()
            &&& page.capacity() >= min_size
            &&& forall|i: int| 0 <= i < page.bytes().len() ==> page.bytes()[i] == 0
        },
        r matches Err(e) ==> e == EfiError::AllocationFailed(resp.status),
{
    if !resp.status.success() {
        return Err(EfiError::AllocationFailed(resp.status));
    }
    let pages: usize = pages_for(min_size);
    assert(pages * PAGE_SIZE <= usize::MAX) by {
        assert((pages - 1) * PAGE_SIZE < min_size);
    }
    Ok(SimplePage::from_grant(resp.address, pages))
}

/// The memory-map retrieval, first phase: the size probe has been issued
/// and its answer is awaited.
pub struct MapSizeProbe {
    calls: Ghost<Seq<BootRequest>>,
}

/// The memory-map retrieval, second phase: the buffer allocation has been
/// issued and its answer is awaited.
pub struct MapAllocation {
    needed: usize,
    calls: Ghost<Seq<BootRequest>>,
}

/// The memory-map retrieval, third phase: the fetch into the allocated
/// buffer has been issued and its answer is awaited.
pub struct MapFetch {
    page: SimplePage,
    calls: Ghost<Seq<BootRequest>>,
}

/// A retrieved memory map: the page region holding the descriptor records,
/// with the key and descriptor metadata of the fetch that filled it.
///
/// Descriptor records must be read by striding through the bytes in
/// increments of the descriptor size, not of any fixed record size.
pub struct MemoryMap {
    page: SimplePage,
    key: usize,
    descriptor_size: usize,
    descriptor_version: u32,
    calls: Ghost<Seq<BootRequest>>,
}

impl MapSizeProbe {
    /// The firmware calls the retrieval has issued so far.
    pub closed spec fn calls(&self) -> Seq<BootRequest> {
        self.calls@
    }

    pub open spec fn wf(&self) -> bool {
        self.calls() == seq![spec_probe_request()]
    }

    /// Starts a memory-map retrieval.  Succeeds exactly when a firmware
    /// service table is registered, and then issues the null size probe as
    /// the retrieval's first and only call so far.
    pub fn begin(registry: &SystemTableRegistry) -> (r: Result<
        (MapSizeProbe, BootRequest),
        EfiError,
    >)
        ensures
            registry.is_registered() <==> r is Ok,
            r matches Ok((probe, req)) ==> probe.wf() && req == spec_probe_request(),
            r matches Err(e) ==> e == EfiError::TableUnset,
    {
        if registry.system_table().is_none() {
            return Err(EfiError::TableUnset);
        }
        let req = BootRequest::GetMemoryMap { buffer_address: 0, buffer_size: 0 };
        let ghost trace = seq![spec_probe_request()];
        Ok((MapSizeProbe { calls: Ghost(trace) }, req))
    }

    /// Applies the firmware's answer to the size probe.
    ///
    /// The protocol owes exactly one answer: "buffer too small" with a
    /// positive size whose page cover fits in an address word.  Then the
    /// retrieval moves on and issues the allocation call for that many
    /// bytes.  Any other status — success included — is a firmware
    /// contract violation; a zero size or an unrepresentably large size is
    /// likewise refused.
    pub fn on_response(self, resp: &MapResponse) -> (r: Result<
        (MapAllocation, BootRequest),
        EfiError,
    >)
        requires
            self.wf(),
        ensures
            (resp.status.is_buffer_too_small() && resp.size >= 1 && resp.size <= usize::MAX - (
            PAGE_SIZE - 1)) <==> r is Ok,
            r matches Ok((alloc, req)) ==> {
                &&& alloc.wf()
                &&& alloc.needed() == resp.size
                &&& req == spec_allocation_request(spec_pages_for(resp.size as nat) as usize)
                &&& alloc.calls() == self.calls().push(req)
            },
            !resp.status.is_buffer_too_small() ==> (r matches Err(e) && e
                == EfiError::ProbeUnexpectedStatus(resp.status)),
            resp.status.is_buffer_too_small() && resp.size == 0 ==> (r matches Err(e) && e
                == EfiError::ProbeSizeZero),
            resp.status.is_buffer_too_small() && resp.size > usize::MAX - (PAGE_SIZE - 1)
                ==> (r matches Err(e) && e == EfiError::MapTooLarge),
    {
        if !resp.status.buffer_too_small() {
            return Err(EfiError::ProbeUnexpectedStatus(resp.status));
        }
        if resp.size == 0 {
            return Err(EfiError::ProbeSizeZero);
        }
        if resp.size > usize::MAX - (PAGE_SIZE - 1) {
            return Err(EfiError::MapTooLarge);
        }
        let req = allocation_request(resp.size);
        let ghost trace = self.calls@.push(req);
        proof {
            assert(trace =~= seq![
                spec_probe_request(),
                spec_allocation_request(spec_pages_for(resp.size as nat) as usize),
            ]);
        }
        let alloc = MapAllocation { needed: resp.size, calls: Ghost(trace) };
        Ok((alloc, req))
    }
}

impl MapAllocation {
    /// The byte count the size probe reported as needed.
    pub closed spec fn needed(&self) -> usize {
        self.needed
    }

    /// The firmware calls the retrieval has issued so far.
    pub closed spec fn calls(&self) -> Seq<BootRequest> {
        self.calls@
    }

    pub open spec fn wf(&self) -> bool {
        &&& self.needed() >= 1
        &&& self.needed() <= usize::MAX - (PAGE_SIZE - 1)
        &&& self.calls() == seq![
            spec_probe_request(),
            spec_allocation_request(spec_pages_for(self.needed() as nat) as usize),
        ]
    }

    /// Applies the firmware's answer to the allocation call.
    ///
    /// On success the granted pages become the map buffer — its whole-page
    /// capacity is the intentional slack against the map growing between
    /// probe and fetch — and the retrieval issues the fetch call declaring
    /// that full capacity.  Any other status is an allocation failure,
    /// fatal to the caller.
    pub fn on_response(self, resp: &AllocResponse) -> (r: Result<
        (MapFetch, BootRequest),
        EfiError,
    >)
        requires
            self.wf(),
        ensures
            resp.status.is_success() <==> r is Ok,
            r matches Ok((fetch, req)) ==> {
                &&& fetch.wf()
                &&& fetch.page().base() == resp.address
                &&& fetch.page().page_count() == spec_pages_for(self.needed() as nat)
                &&& fetch.page().capacity() >= self.needed()
                &&& req == spec_fetch_request(resp.address, fetch.page().capacity() as usize)
                &&& fetch.calls() == self.calls().push(req)
            },
            r matches Err(e) ==> e == EfiError::AllocationFailed(resp.status),
    {
        let page = match page_from_allocation(self.needed, resp) {
            Ok(page) => page,
            Err(e) => {
                return Err(e);
            },
        };
        let capacity: usize = page.len();
        let address: usize = page.address();
        let req = BootRequest::GetMemoryMap { buffer_address: address, buffer_size: capacity };
        let ghost trace = self.calls@.push(req);
        proof {
            assert(trace =~= seq![
                spec_probe_request(),
                spec_allocation_request(page.page_count()),
                spec_fetch_request(page.base(), page.capacity() as usize),
            ]);
        }
        let fetch = MapFetch { page, calls: Ghost(trace) };
        Ok((fetch, req))
    }
}

impl MapFetch {
    /// The map buffer the fetch was issued for.
    pub closed spec fn page(&self) -> SimplePage {
        self.page
    }

    /// The firmware calls the retrieval has issued so far.
    pub closed spec fn calls(&self) -> Seq<BootRequest> {
        self.calls@
    }

    pub open spec fn wf(&self) -> bool {
        &&& self.page().wf()
        &&& self.page().used() == self.page().capacity()
        &&& self.calls() == seq![
            spec_probe_request(),
            spec_allocation_request(self.page().page_count()),
            spec_fetch_request(self.page().base(), self.page().capacity() as usize),
        ]
    }

    /// Applies the firmware's answer to the map fetch.
    ///
    /// Success yields the memory map: the buffer's used size shrinks to
    /// the byte count the firmware wrote, its bytes are those the firmware
    /// wrote, and the key and descriptor metadata are recorded exactly as
    /// returned.  A non-success status is a hard failure, and a success
    /// that claims more bytes than the buffer holds is a firmware contract
    /// violation; either way the buffer comes back for release.
    pub fn on_response(self, resp: MapResponse) -> (r: Result<MemoryMap, (EfiError, SimplePage)>)
        requires
            self.wf(),
        ensures
            (resp.status.is_success() && resp.size <= self.page().capacity() && resp.data@.len()
                == resp.size) <==> r is Ok,
            r matches Ok(map) ==> {
                &&& map.wf()
                &&& map.bytes() == resp.data@
                &&& map.used() == resp.size
                &&& map.map_key() == resp.key
                &&& map.descriptor_size() == resp.descriptor_size
                &&& map.descriptor_version() == resp.descriptor_version
                &&& map.base() == self.page().base()
                &&& map.page_count() == self.page().page_count()
                &&& map.calls() == self.calls()
            },
            !resp.status.is_success() ==> (r matches Err(e) && e.0 == EfiError::FetchFailed(
                resp.status,
            ) && e.1 == self.page()),
            resp.status.is_success() && !(resp.size <= self.page().capacity() && resp.data@.len()
                == resp.size) ==> (r matches Err(e) && e.0 == EfiError::FetchSizeInvalid && e.1
                == self.page()),
    {
        if !resp.status.success() {
            return Err((EfiError::FetchFailed(resp.status), self.page));
        }
        if resp.size > self.page.len() || resp.data.len() != resp.size {
            return Err((EfiError::FetchSizeInvalid, self.page));
        }
        let mut page = self.page;
        page.load(resp.data);
        Ok(
            MemoryMap {
                page,
                key: resp.key,
                descriptor_size: resp.descriptor_size,
                descriptor_version: resp.descriptor_version,
                calls: self.calls,
            },
        )
    }
}

impl MemoryMap {
    /// The page region holding the descriptor records.
    pub closed spec fn page(&self) -> SimplePage {
        self.page
    }

    /// The opaque key tying this map to the exact memory state of its
    /// fetch; stale after any later allocation or free.
    pub closed spec fn map_key(&self) -> usize {
        self.key
    }

    /// The stride between descriptor records in the map bytes.
    pub closed spec fn descriptor_size(&self) -> usize {
        self.descriptor_size
    }

    /// The version tag of the descriptor record format.
    pub closed spec fn descriptor_version(&self) -> u32 {
        self.descriptor_version
    }

    /// The firmware calls of the retrieval that produced this map.
    pub closed spec fn calls(&self) -> Seq<BootRequest> {
        self.calls@
    }

    pub open spec fn bytes(&self) -> Seq<u8> {
        self.page().bytes()
    }

    pub open spec fn used(&self) -> nat {
        self.page().used()
    }

    pub open spec fn base(&self) -> usize {
        self.page().base()
    }

    pub open spec fn page_count(&self) -> usize {
        self.page().page_count()
    }

    pub open spec fn capacity(&self) -> nat {
        self.page().capacity()
    }

    pub open spec fn wf(&self) -> bool {
        &&& self.page().wf()
        &&& self.calls() == seq![
            spec_probe_request(),
            spec_allocation_request(self.page().page_count()),
            spec_fetch_request(self.page().base(), self.page().capacity() as usize),
        ]
    }

    /// The map key of the fetch that filled this map.
    pub fn key(&self) -> (r: usize)
        ensures
            r == self.map_key(),
    {
        self.key
    }

    /// The stride between descriptor records.
    pub fn stride(&self) -> (r: usize)
        ensures
            r == self.descriptor_size(),
    {
        self.descriptor_size
    }

    /// The version tag of the descriptor record format.
    pub fn version(&self) -> (r: u32)
        ensures
            r == self.descriptor_version(),
    {
        self.descriptor_version
    }

    /// The map bytes the firmware wrote.
    pub fn get_slice(&self) -> (r: &[u8])
        ensures
            r@ == self.bytes(),
    {
        self.page.get_slice()
    }

    /// The used size of the map in bytes.
    pub fn len(&self) -> (r: usize)
        ensures
            r == self.used(),
    {
        self.page.len()
    }

    /// Gives up the map's page region, for release or for keeping past the
    /// firmware handoff.
    pub fn into_page(self) -> (r: SimplePage)
        ensures
            r == self.page(),
    {
        self.page
    }
}

/// The exit handshake: the exit-boot-services call has been issued with a
/// freshly fetched map key, and its answer is awaited.
pub struct ExitHandshake {
    map: MemoryMap,
    handle: EfiHandle,
    calls: Ghost<Seq<BootRequest>>,
}

/// Issues the exit-boot-services call for a freshly retrieved memory map.
///
/// Succeeds exactly when a firmware service table is registered; the exit
/// call then carries the image handle and the key of that same map, with
/// no allocation or free issued since its fetch.  On a missing table the
/// map comes back unharmed.
pub fn request_exit(
    registry: &SystemTableRegistry,
    map: MemoryMap,
    image_handle: EfiHandle,
) -> (r: Result<(ExitHandshake, BootRequest), (EfiError, MemoryMap)>)
    requires
        map.wf(),
    ensures
        registry.is_registered() <==> r is Ok,
        r matches Ok((exit, req)) ==> {
            &&& exit.wf()
            &&& exit.map() == map
            &&& exit.handle() == image_handle
            &&& req == spec_exit_request(image_handle, map.map_key())
            &&& exit.calls() == map.calls().push(req)
        },
        r matches Err(e) ==> e.0 == EfiError::TableUnset && e.1 == map,
{
    if registry.system_table().is_none() {
        return Err((EfiError::TableUnset, map));
    }
    let key: usize = map.key();
    let req = BootRequest::ExitBootServices { image_handle, map_key: key };
    let ghost trace = map.calls().push(req);
    Ok((ExitHandshake { map, handle: image_handle, calls: Ghost(trace) }, req))
}

impl ExitHandshake {
    /// The memory map whose key the exit call carries.
    pub closed spec fn map(&self) -> MemoryMap {
        self.map
    }

    /// The image handle the exit call carries.
    pub closed spec fn handle(&self) -> EfiHandle {
        self.handle
    }

    /// All firmware calls of the handshake, the retrieval's included.
    pub closed spec fn calls(&self) -> Seq<BootRequest> {
        self.calls@
    }

    pub open spec fn wf(&self) -> bool {
        &&& self.map().wf()
        &&& self.calls() == self.map().calls().push(
            spec_exit_request(self.handle(), self.map().map_key()),
        )
    }

    /// Applies the firmware's answer to the exit call.
    ///
    /// On success, boot services are gone for good: no request of this
    /// layer may be issued again, and the memory map's page region — the
    /// last valid map — passes to the caller.  On any other status the
    /// firmware refused the handshake, most likely because the key went
    /// stale; the map comes back and the caller may retry from a fresh
    /// retrieval.
    pub fn on_response(self, status: EfiStatus) -> (r: Result<SimplePage, (EfiError, MemoryMap)>)
        requires
            self.wf(),
        ensures
            status.is_success() <==> r is Ok,
            r matches Ok(page) ==> page == self.map().page(),
            r matches Err(e) ==> e.0 == EfiError::ExitRefused(status) && e.1 == self.map(),
    {
        if !status.success() {
            return Err((EfiError::ExitRefused(status), self.map));
        }
        Ok(self.map.into_page())
    }
}

/// The exit handshake performs exactly one memory-map retrieval — one size
/// probe, one allocation, one fetch into the allocated buffer — followed
/// by exactly one exit call carrying the key returned by that same fetch,
/// with no other firmware call in between.
pub proof fn lemma_exit_call_sequence(exit: ExitHandshake)
    requires
        exit.wf(),
    ensures
        exit.calls().len() == 4,
        exit.calls()[0] == spec_probe_request(),
        exit.calls()[1] == spec_allocation_request(exit.map().page_count()),
        exit.calls()[2] == spec_fetch_request(
            exit.map().base(),
            exit.map().capacity() as usize,
        ),
        exit.calls()[3] == spec_exit_request(exit.handle(), exit.map().map_key()),
{
}

} // verus!
