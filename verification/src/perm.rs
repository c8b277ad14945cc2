//! The permission translator.
//!
//! Callers describe a memory region with a 3-bit foreign mask (read, write,
//! execute). The engine keeps a richer internal flag set; translation maps
//! each set foreign bit to its internal counterpart and never invents or
//! drops a capability. New mappings additionally need three engine-mandated
//! flags (mapped, initialized-on-access, cacheable); changing protection on
//! an existing mapping does not add them (see `crate::memory`).

use vstd::prelude::*;

verus! {

/// Foreign mask bit: the region may be read.
pub const FOREIGN_READ: u8 = 0x01;

/// Foreign mask bit: the region may be written.
pub const FOREIGN_WRITE: u8 = 0x02;

/// Foreign mask bit: the region may be executed.
pub const FOREIGN_EXEC: u8 = 0x04;

/// Internal flag: readable.
pub const PERM_READ: u8 = 0x01;

/// Internal flag: writable.
pub const PERM_WRITE: u8 = 0x02;

/// Internal flag: executable.
pub const PERM_EXEC: u8 = 0x04;

/// Internal flag: the page is mapped.
pub const PERM_MAP: u8 = 0x08;

/// Internal flag: the page counts as initialized on access.
pub const PERM_INIT: u8 = 0x10;

/// Internal flag: the page may enter the translation cache.
pub const PERM_IN_CODE_CACHE: u8 = 0x20;

/// Internal flags with no capability set at all.
pub const PERM_NONE: u8 = 0x00;

/// The engine-mandated flags that every new mapping carries in addition to
/// the translated capabilities.
pub const MAPPING_PERMISSIONS: u8 = PERM_MAP | PERM_INIT | PERM_IN_CODE_CACHE;

/// The internal flag set a foreign mask translates to: each set foreign bit
/// contributes exactly its internal counterpart.
pub open spec fn spec_map_permissions(foreign_permissions: u8) -> u8 {
    (if foreign_permissions & FOREIGN_READ != 0 {
        PERM_READ
    } else {
        0
    }) | (if foreign_permissions & FOREIGN_WRITE != 0 {
        PERM_WRITE
    } else {
        0
    }) | (if foreign_permissions & FOREIGN_EXEC != 0 {
        PERM_EXEC
    } else {
        0
    })
}

/// Translates a 3-bit foreign permission mask to the internal flag set.
/// Total over all eight mask values; foreign bits beyond the low three are
/// ignored.
pub fn map_permissions(foreign_permissions: u8) -> (permissions: u8)
    ensures
        permissions == spec_map_permissions(foreign_permissions),
{
    let read_flag: u8 = if (foreign_permissions & FOREIGN_READ) != 0 {
        PERM_READ
    } else {
        0
    };
    let write_flag: u8 = if (foreign_permissions & FOREIGN_WRITE) != 0 {
        PERM_WRITE
    } else {
        0
    };
    let exec_flag: u8 = if (foreign_permissions & FOREIGN_EXEC) != 0 {
        PERM_EXEC
    } else {
        0
    };
    read_flag | write_flag | exec_flag
}

/// Translation is a monotonic embedding: when one foreign mask grants at
/// most what another grants, the translated flags do too — setting an
/// additional foreign bit never clears an internal bit already set.
pub proof fn lemma_translation_monotonic(narrow: u8, wide: u8)
    requires
        narrow & wide == narrow,
    ensures
        spec_map_permissions(narrow) & spec_map_permissions(wide)
            == spec_map_permissions(narrow),
{
    assert((narrow & 0x01u8 != 0 ==> wide & 0x01u8 != 0) && (narrow & 0x02u8 != 0 ==> wide
        & 0x02u8 != 0) && (narrow & 0x04u8 != 0 ==> wide & 0x04u8 != 0)) by (bit_vector)
        requires
            narrow & wide == narrow,
    ;
    let n = spec_map_permissions(narrow);
    let w = spec_map_permissions(wide);
    assert(n & w == n) by (bit_vector)
        requires
            n == (if narrow & 0x01u8 != 0 { 0x01u8 } else { 0u8 }) | (if narrow & 0x02u8 != 0 {
                0x02u8
            } else {
                0u8
            }) | (if narrow & 0x04u8 != 0 { 0x04u8 } else { 0u8 }),
            w == (if wide & 0x01u8 != 0 { 0x01u8 } else { 0u8 }) | (if wide & 0x02u8 != 0 {
                0x02u8
            } else {
                0u8
            }) | (if wide & 0x04u8 != 0 { 0x04u8 } else { 0u8 }),
            narrow & wide == narrow,
    ;
}

/// Translation never hands out the engine-mandated mapping flags: they are
/// added separately, and only when a new mapping is established.
pub proof fn lemma_translation_no_mapping_flags(foreign_permissions: u8)
    ensures
        spec_map_permissions(foreign_permissions) & MAPPING_PERMISSIONS == 0,
{
    assert(0x08u8 | 0x10u8 | 0x20u8 == 0x38u8) by (bit_vector);
    let p = spec_map_permissions(foreign_permissions);
    assert(p & 0x38u8 == 0) by (bit_vector)
        requires
            p == (if foreign_permissions & 0x01u8 != 0 { 0x01u8 } else { 0u8 }) | (
            if foreign_permissions & 0x02u8 != 0 { 0x02u8 } else { 0u8 }) | (
            if foreign_permissions & 0x04u8 != 0 { 0x04u8 } else { 0u8 }),
    ;
}

} // verus!
