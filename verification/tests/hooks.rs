use icicle_facade::hooks::{
    hook_type_of_code, qualify_hook_id, split_hook_id, HookContainer, HookType, MAX_SEQUENCE,
};

fn categories() -> [HookType; 5] {
    [
        HookType::Syscall,
        HookType::Read,
        HookType::Write,
        HookType::Execute,
        HookType::Unknown,
    ]
}

#[test]
fn hook_id_roundtrip_all_categories() {
    for &category in categories().iter() {
        for &sequence in [1u32, 2, 0x1234, 0x00FF_FFFE, MAX_SEQUENCE].iter() {
            let id = qualify_hook_id(sequence, category);
            let (decoded_sequence, decoded_category) = split_hook_id(id);
            assert_eq!(decoded_sequence, sequence);
            assert_eq!(decoded_category, category);
        }
    }
}

#[test]
fn hook_id_exact_packing() {
    assert_eq!(qualify_hook_id(3, HookType::Syscall), 0x0100_0003);
    assert_eq!(qualify_hook_id(3, HookType::Read), 0x0200_0003);
    assert_eq!(qualify_hook_id(3, HookType::Write), 0x0300_0003);
    assert_eq!(qualify_hook_id(3, HookType::Execute), 0x0400_0003);
    assert_eq!(qualify_hook_id(0x00FF_FFFF, HookType::Syscall), 0x01FF_FFFF);
}

#[test]
fn hook_ids_never_collide_across_categories() {
    for &c1 in categories().iter() {
        for &c2 in categories().iter() {
            if c1 == c2 {
                continue;
            }
            for &s1 in [1u32, 77, MAX_SEQUENCE].iter() {
                for &s2 in [1u32, 77, MAX_SEQUENCE].iter() {
                    assert_ne!(qualify_hook_id(s1, c1), qualify_hook_id(s2, c2));
                }
            }
        }
    }
}

#[test]
fn unrecognized_category_byte_decodes_to_unknown() {
    assert_eq!(hook_type_of_code(0), HookType::Unknown);
    assert_eq!(hook_type_of_code(5), HookType::Unknown);
    assert_eq!(hook_type_of_code(6), HookType::Unknown);
    assert_eq!(hook_type_of_code(0xFF), HookType::Unknown);
    let (sequence, category) = split_hook_id(0xFF00_0001);
    assert_eq!(sequence, 1);
    assert_eq!(category, HookType::Unknown);
}

#[test]
fn sequence_numbers_start_at_one_and_zero_is_never_issued() {
    let mut container: HookContainer<i32> = HookContainer::new();
    assert_eq!(container.last_sequence(), 0);
    let first = container.add_hook(11);
    assert_eq!(first, 1);
}

#[test]
fn sequence_numbers_monotonic_across_removal() {
    let mut container: HookContainer<i32> = HookContainer::new();
    let a = container.add_hook(10);
    let b = container.add_hook(20);
    assert_ne!(a, b);
    container.remove_hook(a);
    let c = container.add_hook(30);
    assert_ne!(c, a);
    assert_ne!(c, b);
    assert_eq!(c, 3);
    container.remove_hook(b);
    container.remove_hook(c);
    let d = container.add_hook(40);
    assert_eq!(d, 4);
}

#[test]
fn remove_unknown_sequence_is_a_noop() {
    let mut container: HookContainer<i32> = HookContainer::new();
    let a = container.add_hook(10);
    container.remove_hook(42);
    container.remove_hook(0);
    assert_eq!(container.get_hooks().len(), 1);
    assert_eq!(container.get_hooks()[0], (a, 10));
}

#[test]
fn removal_drops_exactly_the_named_hook() {
    let mut container: HookContainer<i32> = HookContainer::new();
    let a = container.add_hook(10);
    let b = container.add_hook(20);
    let c = container.add_hook(30);
    container.remove_hook(b);
    let hooks = container.get_hooks();
    assert_eq!(hooks.len(), 2);
    assert_eq!(hooks[0], (a, 10));
    assert_eq!(hooks[1], (c, 30));
    container.remove_hook(b);
    assert_eq!(container.get_hooks().len(), 2);
}
