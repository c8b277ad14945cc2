//! Memory-mapping requests handed to the engine's memory subsystem.
//!
//! The facade never talks to the engine's allocator directly from verified
//! code: it computes a request — layout plus permissions — as plain values,
//! and the unverified boundary performs the allocation and reports a bare
//! success flag back.

use vstd::prelude::*;
use crate::perm::{spec_map_permissions, map_permissions, MAPPING_PERMISSIONS};

verus! {

/// Every mapping is allocated on this boundary.
pub const PAGE_ALIGNMENT: u64 = 0x1000;

/// Where and how large an allocation should be.
#[derive(Clone, Copy, PartialEq, Eq, Structural, Debug)]
pub struct AllocLayout {
    /// The fixed guest address the region must appear at.
    pub addr: Option<u64>,
    /// The region's length in bytes.
    pub size: u64,
    /// The required alignment of the region's start.
    pub align: u64,
}

/// The permissions and fill value a fresh mapping starts with.
#[derive(Clone, Copy, PartialEq, Eq, Structural, Debug)]
pub struct MemMapping {
    /// Internal permission flags (see `crate::perm`).
    pub perm: u8,
    /// The byte the region is filled with.
    pub value: u8,
}

/// A complete request to establish one new mapping.
#[derive(Clone, Copy, PartialEq, Eq, Structural, Debug)]
pub struct MapRequest {
    pub layout: AllocLayout,
    pub mapping: MemMapping,
}

/// Builds the request for mapping `length` bytes at `address` with the
/// given 3-bit foreign permission mask: the translated capabilities plus
/// the engine-mandated mapping flags, zero-filled, page-aligned.
///
/// Changing protection on an existing mapping goes through
/// `crate::perm::map_permissions` alone; only a new mapping carries
/// `MAPPING_PERMISSIONS`.
pub fn map_memory_request(address: u64, length: u64, permissions: u8) -> (req: MapRequest)
    ensures
        req.layout.addr == Some(address),
        req.layout.size == length,
        req.layout.align == PAGE_ALIGNMENT,
        req.mapping.perm == spec_map_permissions(permissions) | MAPPING_PERMISSIONS,
        req.mapping.value == 0,
{
    let native_permissions = map_permissions(permissions);
    MapRequest {
        layout: AllocLayout { addr: Some(address), size: length, align: PAGE_ALIGNMENT },
        mapping: MemMapping { perm: native_permissions | MAPPING_PERMISSIONS, value: 0 },
    }
}

/// The layout for an MMIO region: same placement rules as an ordinary
/// mapping, but the region is backed by the caller's access handlers
/// instead of permissioned storage, so no permission flags are planned.
pub fn mmio_layout(address: u64, length: u64) -> (layout: AllocLayout)
    ensures
        layout.addr == Some(address),
        layout.size == length,
        layout.align == PAGE_ALIGNMENT,
{
    AllocLayout { addr: Some(address), size: length, align: PAGE_ALIGNMENT }
}

} // verus!
