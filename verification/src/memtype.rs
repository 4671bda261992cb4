//! Memory classes and allocation strategies of the firmware page allocator,
//! and their specification-defined numeric codes.

use vstd::prelude::*;

verus! {

/// The allocation strategy this layer requests: let the firmware pick any
/// address.
#[derive(Clone, Copy, PartialEq, Eq, Structural, Debug)]
pub enum EfiAllocateType {
    AllocateAnyPages,
}

/// The specification-defined code of an allocation strategy.
pub open spec fn spec_allocate_type_code(t: EfiAllocateType) -> usize {
    match t {
        EfiAllocateType::AllocateAnyPages => 0,
    }
}

impl EfiAllocateType {
    pub fn code(&self) -> (r: usize)
        ensures
            r == spec_allocate_type_code(*self),
    {
        match self {
            EfiAllocateType::AllocateAnyPages => 0,
        }
    }
}

/// The classification of a memory range, as the firmware reports it in a
/// memory descriptor and as an allocation request names it.
#[derive(Clone, Copy, PartialEq, Eq, Structural, Debug)]
pub enum EfiMemoryType {
    ReservedMemoryType,
    LoaderCode,
    LoaderData,
    BootServicesCode,
    BootServicesData,
    RuntimeServicesCode,
    RuntimeServicesData,
    ConventionalMemory,
    UnstableMemory,
    ACPIReclaimMemory,
    ACPIMemoryNVS,
    MemoryMappedIO,
    MemoryMappedIOPortSpace,
    PalCode,
    PersistentMemory,
    UnacceptedMemoryType,
}

/// The specification-defined numeric code of a memory class.
pub open spec fn spec_memory_type_code(t: EfiMemoryType) -> u32 {
    match t {
        EfiMemoryType::ReservedMemoryType => 0,
        EfiMemoryType::LoaderCode => 1,
        EfiMemoryType::LoaderData => 2,
        EfiMemoryType::BootServicesCode => 3,
        EfiMemoryType::BootServicesData => 4,
        EfiMemoryType::RuntimeServicesCode => 5,
        EfiMemoryType::RuntimeServicesData => 6,
        EfiMemoryType::ConventionalMemory => 7,
        EfiMemoryType::UnstableMemory => 8,
        EfiMemoryType::ACPIReclaimMemory => 9,
        EfiMemoryType::ACPIMemoryNVS => 10,
        EfiMemoryType::MemoryMappedIO => 11,
        EfiMemoryType::MemoryMappedIOPortSpace => 12,
        EfiMemoryType::PalCode => 13,
        EfiMemoryType::PersistentMemory => 14,
        EfiMemoryType::UnacceptedMemoryType => 15,
    }
}

/// The memory class a numeric code names; codes outside the defined range
/// fall back to the unaccepted class.
pub open spec fn spec_memory_type_of_code(v: u32) -> EfiMemoryType {
    if v == 0 {
        EfiMemoryType::ReservedMemoryType
    } else if v == 1 {
        EfiMemoryType::LoaderCode
    } else if v == 2 {
        EfiMemoryType::LoaderData
    } else if v == 3 {
        EfiMemoryType::BootServicesCode
    } else if v == 4 {
        EfiMemoryType::BootServicesData
    } else if v == 5 {
        EfiMemoryType::RuntimeServicesCode
    } else if v == 6 {
        EfiMemoryType::RuntimeServicesData
    } else if v == 7 {
        EfiMemoryType::ConventionalMemory
    } else if v == 8 {
        EfiMemoryType::UnstableMemory
    } else if v == 9 {
        EfiMemoryType::ACPIReclaimMemory
    } else if v == 10 {
        EfiMemoryType::ACPIMemoryNVS
    } else if v == 11 {
        EfiMemoryType::MemoryMappedIO
    } else if v == 12 {
        EfiMemoryType::MemoryMappedIOPortSpace
    } else if v == 13 {
        EfiMemoryType::PalCode
    } else if v == 14 {
        EfiMemoryType::PersistentMemory
    } else {
        EfiMemoryType::UnacceptedMemoryType
    }
}

impl EfiMemoryType {
    pub fn code(&self) -> (r: u32)
        ensures
            r == spec_memory_type_code(*self),
    {
        match self {
            EfiMemoryType::ReservedMemoryType => 0,
            EfiMemoryType::LoaderCode => 1,
            EfiMemoryType::LoaderData => 2,
            EfiMemoryType::BootServicesCode => 3,
            EfiMemoryType::BootServicesData => 4,
            EfiMemoryType::RuntimeServicesCode => 5,
            EfiMemoryType::RuntimeServicesData => 6,
            EfiMemoryType::ConventionalMemory => 7,
            EfiMemoryType::UnstableMemory => 8,
            EfiMemoryType::ACPIReclaimMemory => 9,
            EfiMemoryType::ACPIMemoryNVS => 10,
            EfiMemoryType::MemoryMappedIO => 11,
            EfiMemoryType::MemoryMappedIOPortSpace => 12,
            EfiMemoryType::PalCode => 13,
            EfiMemoryType::PersistentMemory => 14,
            EfiMemoryType::UnacceptedMemoryType => 15,
        }
    }

    pub fn from_code(v: u32) -> (r: EfiMemoryType)
        ensures
            r == spec_memory_type_of_code(v),
    {
        match v {
            0 => EfiMemoryType::ReservedMemoryType,
            1 => EfiMemoryType::LoaderCode,
            2 => EfiMemoryType::LoaderData,
            3 => EfiMemoryType::BootServicesCode,
            4 => EfiMemoryType::BootServicesData,
            5 => EfiMemoryType::RuntimeServicesCode,
            6 => EfiMemoryType::RuntimeServicesData,
            7 => EfiMemoryType::ConventionalMemory,
            8 => EfiMemoryType::UnstableMemory,
            9 => EfiMemoryType::ACPIReclaimMemory,
            10 => EfiMemoryType::ACPIMemoryNVS,
            11 => EfiMemoryType::MemoryMappedIO,
            12 => EfiMemoryType::MemoryMappedIOPortSpace,
            13 => EfiMemoryType::PalCode,
            14 => EfiMemoryType::PersistentMemory,
            15 => EfiMemoryType::UnacceptedMemoryType,
            _ => EfiMemoryType::UnacceptedMemoryType,
        }
    }
}

} // verus!
