use icicle_facade::memory::{map_memory_request, PAGE_ALIGNMENT};
use icicle_facade::perm::{
    map_permissions, FOREIGN_EXEC, FOREIGN_READ, FOREIGN_WRITE, MAPPING_PERMISSIONS,
    PERM_EXEC, PERM_IN_CODE_CACHE, PERM_INIT, PERM_MAP, PERM_NONE, PERM_READ, PERM_WRITE,
};

#[test]
fn translation_of_all_eight_masks() {
    assert_eq!(map_permissions(0), PERM_NONE);
    assert_eq!(map_permissions(FOREIGN_READ), PERM_READ);
    assert_eq!(map_permissions(FOREIGN_WRITE), PERM_WRITE);
    assert_eq!(map_permissions(FOREIGN_READ | FOREIGN_WRITE), PERM_READ | PERM_WRITE);
    assert_eq!(map_permissions(FOREIGN_EXEC), PERM_EXEC);
    assert_eq!(map_permissions(FOREIGN_READ | FOREIGN_EXEC), PERM_READ | PERM_EXEC);
    assert_eq!(map_permissions(FOREIGN_WRITE | FOREIGN_EXEC), PERM_WRITE | PERM_EXEC);
    assert_eq!(
        map_permissions(FOREIGN_READ | FOREIGN_WRITE | FOREIGN_EXEC),
        PERM_READ | PERM_WRITE | PERM_EXEC
    );
}

#[test]
fn translation_is_deterministic() {
    for mask in 0u8..8 {
        assert_eq!(map_permissions(mask), map_permissions(mask));
    }
}

#[test]
fn translation_ignores_bits_beyond_the_low_three() {
    assert_eq!(map_permissions(0xF8), PERM_NONE);
    assert_eq!(map_permissions(0xFF), PERM_READ | PERM_WRITE | PERM_EXEC);
}

#[test]
fn translation_is_a_monotonic_embedding() {
    for narrow in 0u8..8 {
        for wide in 0u8..8 {
            if narrow & wide == narrow {
                let n = map_permissions(narrow);
                let w = map_permissions(wide);
                assert_eq!(n & w, n);
            }
        }
    }
}

#[test]
fn translation_never_sets_mapping_flags() {
    assert_eq!(MAPPING_PERMISSIONS, PERM_MAP | PERM_INIT | PERM_IN_CODE_CACHE);
    for mask in 0u8..8 {
        assert_eq!(map_permissions(mask) & MAPPING_PERMISSIONS, 0);
    }
}

#[test]
fn map_request_adds_mapping_flags_and_page_alignment() {
    let req = map_memory_request(0x0040_0000, 4096, FOREIGN_READ | FOREIGN_WRITE);
    assert_eq!(req.layout.addr, Some(0x0040_0000));
    assert_eq!(req.layout.size, 4096);
    assert_eq!(req.layout.align, PAGE_ALIGNMENT);
    assert_eq!(PAGE_ALIGNMENT, 4096);
    assert_eq!(req.mapping.perm, PERM_READ | PERM_WRITE | MAPPING_PERMISSIONS);
    assert_eq!(req.mapping.value, 0);
}
