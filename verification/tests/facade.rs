use std::cell::Cell;
use std::rc::Rc;

use icicle_facade::emulator::{
    handle_exit, to_cbool, AccessError, ExceptionKind, ExitReason, IcicleEmulator,
    MmioHandler, RegisterWrite, RunControl, CANONICAL_REGISTER_WIDTH,
    SYSCALL_INSTRUCTION_LENGTH,
};
use icicle_facade::memory::{mmio_layout, PAGE_ALIGNMENT};
use icicle_facade::registers::{catalog, register_name, X64Register, REGISTER_COUNT};
use icicle_facade::resolve::{BuildError, RegDescriptor, VarHandle};

type Hook = Box<dyn Fn()>;

/// The simulated engine state: one flat byte store that the overlapping
/// variable handles of the descriptor set below are views into.
struct Storage {
    bytes: Vec<u8>,
}

impl Storage {
    fn new() -> Storage {
        Storage { bytes: vec![0u8; 0x8000] }
    }

    /// What the engine reports for a register read: the view's bytes,
    /// zero-extended to the canonical width.
    fn read(&self, var: VarHandle) -> Vec<u8> {
        let mut value = vec![0u8; CANONICAL_REGISTER_WIDTH];
        for i in 0..var.size as usize {
            value[i] = self.bytes[var.offset as usize + i];
        }
        value
    }

    /// What the engine does with a planned write: commit exactly the
    /// resolved width into the view's storage.
    fn commit(&mut self, write: &RegisterWrite) {
        assert_eq!(write.bytes.len(), write.var.size as usize);
        for i in 0..write.bytes.len() {
            self.bytes[write.var.offset as usize + i] = write.bytes[i];
        }
    }
}

/// Where a descriptor's storage sits. The accumulator register's views
/// overlap the way the hardware aliases them; every other name gets its
/// own slot with a realistic width.
fn place(name: &str, next_offset: &mut u64) -> VarHandle {
    let overlapped = match name {
        "RAX" => Some((0x20u64, 8u8)),
        "EAX" => Some((0x20, 4)),
        "AX" => Some((0x20, 2)),
        "AL" => Some((0x20, 1)),
        "AH" => Some((0x21, 1)),
        _ => None,
    };
    if let Some((offset, size)) = overlapped {
        return VarHandle { offset, size };
    }
    let size: u8 = if name.starts_with("YMM") {
        32
    } else if name.starts_with("XMM") {
        16
    } else if name.starts_with("ST") {
        10
    } else {
        8
    };
    let offset = *next_offset;
    *next_offset += 32;
    VarHandle { offset, size }
}

/// A descriptor set covering the whole catalog, with one descriptor per
/// distinct name.
fn descriptors() -> Vec<RegDescriptor> {
    let mut descs: Vec<RegDescriptor> = Vec::new();
    let mut next_offset: u64 = 0x100;
    for reg in catalog() {
        if let Some(name) = register_name(reg) {
            if descs.iter().all(|d| d.name != name) {
                let var = place(name, &mut next_offset);
                descs.push(RegDescriptor { name: name.to_string(), var });
            }
        }
    }
    descs
}

fn emulator() -> IcicleEmulator<Hook> {
    IcicleEmulator::new(&descriptors()).unwrap()
}

#[test]
fn catalog_shape() {
    let regs = catalog();
    assert_eq!(regs.len(), REGISTER_COUNT);
    assert_eq!(regs[0], X64Register::Invalid);
    assert_eq!(regs[REGISTER_COUNT - 1], X64Register::End);
}

#[test]
fn descriptor_names() {
    assert_eq!(register_name(X64Register::Rax), Some("RAX"));
    assert_eq!(register_name(X64Register::Eflags), Some("eflags"));
    assert_eq!(register_name(X64Register::Fpsw), Some("FPUStatusWord"));
    assert_eq!(register_name(X64Register::Fpcw), Some("FPUControlWord"));
    assert_eq!(register_name(X64Register::Fp3), Some("ST3"));
    assert_eq!(register_name(X64Register::St3), Some("ST3"));
    assert_eq!(register_name(X64Register::FsBase), Some("FS_OFFSET"));
    assert_eq!(register_name(X64Register::Invalid), None);
    assert_eq!(register_name(X64Register::End), None);
    assert_eq!(register_name(X64Register::K0), None);
    assert_eq!(register_name(X64Register::Zmm0), None);
    assert_eq!(register_name(X64Register::Xmm16), None);
    assert_eq!(register_name(X64Register::Sp), None);
}

#[test]
fn build_fails_fast_on_a_missing_name() {
    let descs: Vec<RegDescriptor> =
        descriptors().into_iter().filter(|d| d.name != "RBX").collect();
    let res = IcicleEmulator::<Hook>::new(&descs);
    assert!(matches!(res, Err(BuildError::UnknownRegisterName(X64Register::Rbx))));
}

#[test]
fn build_fails_fast_on_an_unsupported_width() {
    let mut descs = descriptors();
    for d in descs.iter_mut() {
        if d.name == "RBX" {
            d.var.size = 20;
        }
    }
    let res = IcicleEmulator::<Hook>::new(&descs);
    assert!(matches!(res, Err(BuildError::UnsupportedWidth(X64Register::Rbx, 20))));
}

#[test]
fn aliased_entries_resolve_to_overlapping_handles() {
    let em = emulator();
    let fp3 = em.resolve_register(X64Register::Fp3).unwrap();
    let st3 = em.resolve_register(X64Register::St3).unwrap();
    assert_eq!(fp3, st3);
    assert!(em.resolve_register(X64Register::K5).is_none());
    assert!(em.resolve_register(X64Register::Invalid).is_none());
    assert!(em.resolve_register(X64Register::End).is_none());
}

#[test]
fn read_returns_full_width_even_into_a_short_buffer() {
    let mut storage = Storage::new();
    let em = emulator();
    let write = em
        .write_register(X64Register::Rax, &[0x01, 0x02, 0x03, 0x04, 0x05, 0x06, 0x07, 0x08])
        .unwrap();
    storage.commit(&write);

    let rax = em.resolve_register(X64Register::Rax).unwrap();
    let value = storage.read(rax);
    let mut short = vec![0xEEu8; 3];
    let width = em.read_register(X64Register::Rax, &value, &mut short).unwrap();
    assert_eq!(width, 8);
    assert_eq!(short, vec![0x01, 0x02, 0x03]);

    let mut long = vec![0xEEu8; 40];
    let width = em.read_register(X64Register::Rax, &value, &mut long).unwrap();
    assert_eq!(width, 8);
    assert_eq!(&long[..8], &[0x01, 0x02, 0x03, 0x04, 0x05, 0x06, 0x07, 0x08]);
    assert!(long[8..].iter().all(|&b| b == 0xEE));
}

#[test]
fn write_commits_exactly_the_resolved_width() {
    let em = emulator();
    let write = em.write_register(X64Register::Ax, &[0xAA]).unwrap();
    assert_eq!(write.bytes, vec![0xAA, 0x00]);
    let write = em
        .write_register(X64Register::Al, &[0x11, 0x22, 0x33, 0x44, 0x55])
        .unwrap();
    assert_eq!(write.bytes, vec![0x11]);
}

#[test]
fn alias_round_trip_through_the_accumulator() {
    let mut storage = Storage::new();
    let em = emulator();

    let wide = em
        .write_register(X64Register::Rax, &[0x11, 0x22, 0x33, 0x44, 0x55, 0x66, 0x77, 0x88])
        .unwrap();
    storage.commit(&wide);

    let eax = em.resolve_register(X64Register::Eax).unwrap();
    let mut buffer = vec![0u8; 4];
    let width = em.read_register(X64Register::Eax, &storage.read(eax), &mut buffer).unwrap();
    assert_eq!(width, 4);
    assert_eq!(buffer, vec![0x11, 0x22, 0x33, 0x44]);

    let al = em.resolve_register(X64Register::Al).unwrap();
    let mut byte = vec![0u8; 1];
    assert_eq!(em.read_register(X64Register::Al, &storage.read(al), &mut byte).unwrap(), 1);
    assert_eq!(byte, vec![0x11]);

    let ah = em.resolve_register(X64Register::Ah).unwrap();
    assert_eq!(em.read_register(X64Register::Ah, &storage.read(ah), &mut byte).unwrap(), 1);
    assert_eq!(byte, vec![0x22]);

    let narrow = em.write_register(X64Register::Al, &[0xFF]).unwrap();
    storage.commit(&narrow);
    let rax = em.resolve_register(X64Register::Rax).unwrap();
    let mut full = vec![0u8; 8];
    assert_eq!(em.read_register(X64Register::Rax, &storage.read(rax), &mut full).unwrap(), 8);
    assert_eq!(full, vec![0xFF, 0x22, 0x33, 0x44, 0x55, 0x66, 0x77, 0x88]);
}

#[test]
fn reserved_entries_fail_register_access() {
    let em = emulator();
    let value = vec![0u8; CANONICAL_REGISTER_WIDTH];
    let mut buffer = vec![0u8; 8];
    for reg in [X64Register::Invalid, X64Register::End, X64Register::K0, X64Register::Zmm7] {
        let res = em.read_register(reg, &value, &mut buffer);
        assert!(matches!(res, Err(AccessError::UnsupportedRegister)));
        let res = em.write_register(reg, &[1, 2, 3]);
        assert!(matches!(res, Err(AccessError::UnsupportedRegister)));
    }
}

#[test]
fn exit_classification() {
    let trap = ExitReason::UnhandledException(ExceptionKind::Syscall);
    assert_eq!(
        handle_exit(trap, 0x1000),
        RunControl::ResumeAfterSyscall { next_pc: 0x1000 + SYSCALL_INSTRUCTION_LENGTH }
    );
    assert_eq!(
        handle_exit(ExitReason::UnhandledException(ExceptionKind::Other), 0x1000),
        RunControl::Halt
    );
    assert_eq!(handle_exit(ExitReason::Stopped, 0x1000), RunControl::Halt);
}

#[test]
fn syscall_trap_fans_out_to_every_hook_once() {
    let mut em = emulator();
    let first = Rc::new(Cell::new(0u32));
    let second = Rc::new(Cell::new(0u32));
    let f = Rc::clone(&first);
    let s = Rc::clone(&second);
    em.add_syscall_hook(Box::new(move || f.set(f.get() + 1)));
    em.add_syscall_hook(Box::new(move || s.set(s.get() + 1)));

    let script = vec![
        ExitReason::UnhandledException(ExceptionKind::Syscall),
        ExitReason::Stopped,
    ];
    let final_pc = em.start(&script, 0x1000);
    assert_eq!(final_pc, 0x1000 + SYSCALL_INSTRUCTION_LENGTH);
    assert_eq!(first.get(), 1);
    assert_eq!(second.get(), 1);
}

#[test]
fn run_halts_immediately_on_a_non_trap_reason() {
    let mut em = emulator();
    let count = Rc::new(Cell::new(0u32));
    let c = Rc::clone(&count);
    em.add_syscall_hook(Box::new(move || c.set(c.get() + 1)));
    let final_pc = em.start(&vec![ExitReason::Stopped], 0x2000);
    assert_eq!(final_pc, 0x2000);
    assert_eq!(count.get(), 0);
}

#[test]
fn each_leading_trap_advances_the_program_counter() {
    let em: IcicleEmulator<Hook> = emulator();
    let script = vec![
        ExitReason::UnhandledException(ExceptionKind::Syscall),
        ExitReason::UnhandledException(ExceptionKind::Syscall),
        ExitReason::UnhandledException(ExceptionKind::Other),
        ExitReason::UnhandledException(ExceptionKind::Syscall),
    ];
    let final_pc = em.start(&script, 0x4000);
    assert_eq!(final_pc, 0x4000 + 2 * SYSCALL_INSTRUCTION_LENGTH);
}

#[test]
fn removed_hook_is_no_longer_invoked() {
    let mut em = emulator();
    let first = Rc::new(Cell::new(0u32));
    let second = Rc::new(Cell::new(0u32));
    let f = Rc::clone(&first);
    let s = Rc::clone(&second);
    let id1 = em.add_syscall_hook(Box::new(move || f.set(f.get() + 1)));
    let id2 = em.add_syscall_hook(Box::new(move || s.set(s.get() + 1)));
    assert_ne!(id1, id2);
    em.remove_hook(id1);

    let script = vec![
        ExitReason::UnhandledException(ExceptionKind::Syscall),
        ExitReason::Stopped,
    ];
    em.start(&script, 0);
    assert_eq!(first.get(), 0);
    assert_eq!(second.get(), 1);
}

#[test]
fn remove_with_a_foreign_category_is_a_noop() {
    let mut em = emulator();
    let count = Rc::new(Cell::new(0u32));
    let c = Rc::clone(&count);
    let id = em.add_syscall_hook(Box::new(move || c.set(c.get() + 1)));
    // Same sequence number, but tagged with a category no registry serves.
    em.remove_hook(id ^ 0x0300_0000);
    let script = vec![
        ExitReason::UnhandledException(ExceptionKind::Syscall),
        ExitReason::Stopped,
    ];
    em.start(&script, 0);
    assert_eq!(count.get(), 1);
}

#[test]
fn facade_hook_ids_stay_fresh_after_removal() {
    let mut em = emulator();
    let id1 = em.add_syscall_hook(Box::new(|| ()));
    em.remove_hook(id1);
    let id2 = em.add_syscall_hook(Box::new(|| ()));
    assert_ne!(id1, id2);
    assert_eq!(id1 & 0x00FF_FFFF, 1);
    assert_eq!(id2 & 0x00FF_FFFF, 2);
    assert_eq!(id1 >> 24, 1);
    assert_eq!(id2 >> 24, 1);
    assert_eq!(em.syscall_sequence(), 2);
}

#[test]
fn mmio_handler_hands_both_handlers_back() {
    let reads = Rc::new(Cell::new(0u32));
    let writes = Rc::new(Cell::new(0u32));
    let r = Rc::clone(&reads);
    let w = Rc::clone(&writes);
    let read = move |_addr: u64, data: &mut Vec<u8>| {
        r.set(r.get() + 1);
        data.push(0x5A);
    };
    let write = move |_addr: u64, _data: &Vec<u8>| w.set(w.get() + 1);
    let handler = MmioHandler::new(read, write);

    let mut data: Vec<u8> = Vec::new();
    (handler.read_handler())(0x9000, &mut data);
    (handler.read_handler())(0x9008, &mut data);
    (handler.write_handler())(0x9000, &data);
    assert_eq!(reads.get(), 2);
    assert_eq!(writes.get(), 1);
    assert_eq!(data, vec![0x5A, 0x5A]);
}

#[test]
fn mmio_layout_is_page_aligned_at_the_given_address() {
    let layout = mmio_layout(0x00F0_0000, 0x2000);
    assert_eq!(layout.addr, Some(0x00F0_0000));
    assert_eq!(layout.size, 0x2000);
    assert_eq!(layout.align, PAGE_ALIGNMENT);
}

#[test]
fn cbool_convention() {
    assert_eq!(to_cbool(true), 1);
    assert_eq!(to_cbool(false), 0);
}
