//! The emulator facade.
//!
//! Owns the per-instance resolution table and the syscall hook registry,
//! and holds the decision logic of the operational surface: classifying
//! engine exit reasons, fanning a syscall trap out to every registered
//! hook and skipping the trap instruction, qualifying and splitting hook
//! identifiers, and planning variable-width register reads and writes.
//! The engine itself — which supplies exit reasons, register bytes and
//! memory — stays outside; it hands this module plain values and takes
//! plain values back.

use vstd::prelude::*;
use crate::hooks::{
    HookContainer, HookType, MAX_SEQUENCE, qualify_hook_id, split_hook_id,
    spec_qualify_hook_id, spec_hook_type_of_code, remove_entry,
};
use crate::registers::X64Register;
use crate::resolve::{
    ResolutionTable, RegDescriptor, VarHandle, BuildError, spec_buildable,
    build_error_witnessed,
};

verus! {

/// Registers are read from the engine zero-extended to this canonical
/// width, and writes are planned from a scratch buffer of the same width.
pub const CANONICAL_REGISTER_WIDTH: usize = 32;

/// The width of the trapping instruction's encoding: how far the program
/// counter advances to skip a syscall trap before execution resumes.
pub const SYSCALL_INSTRUCTION_LENGTH: u64 = 2;

/// Register access was asked for an entry that does not resolve:
/// `Invalid`, the terminal sentinel, or a reserved entry.
#[derive(Clone, Copy, PartialEq, Eq, Structural, Debug)]
pub enum AccessError {
    UnsupportedRegister,
}

/// How an unhandled exception's code classifies: a system-call trap, or
/// anything else.
#[derive(Clone, Copy, PartialEq, Eq, Structural, Debug)]
pub enum ExceptionKind {
    Syscall,
    Other,
}

/// The engine's reported reason for leaving the running state, reduced to
/// what the facade inspects.
#[derive(Clone, Copy, PartialEq, Eq, Structural, Debug)]
pub enum ExitReason {
    /// An exception the engine did not handle, classified by its code.
    UnhandledException(ExceptionKind),
    /// Every other exit: a halt, a kill, an instruction limit.
    Stopped,
}

/// Whether an exit reason is the system-call trap the run loop absorbs.
pub open spec fn spec_is_syscall_trap(reason: ExitReason) -> bool {
    reason == ExitReason::UnhandledException(ExceptionKind::Syscall)
}

/// What the run loop does with one exit reason.
#[derive(Clone, Copy, PartialEq, Eq, Structural, Debug)]
pub enum RunControl {
    /// Invoke every registered syscall hook, move the program counter past
    /// the trap instruction, and resume execution.
    ResumeAfterSyscall { next_pc: u64 },
    /// Return control to the caller; only a fresh `start` resumes.
    Halt,
}

/// Classifies one engine exit: a system-call trap resumes at the address
/// just past the trap instruction, anything else halts the session.
pub fn handle_exit(reason: ExitReason, pc: u64) -> (control: RunControl)
    requires
        pc + SYSCALL_INSTRUCTION_LENGTH <= u64::MAX,
    ensures
        spec_is_syscall_trap(reason) ==> control == (RunControl::ResumeAfterSyscall {
            next_pc: (pc + SYSCALL_INSTRUCTION_LENGTH) as u64,
        }),
        !spec_is_syscall_trap(reason) ==> control == RunControl::Halt,
{
    match reason {
        ExitReason::UnhandledException(ExceptionKind::Syscall) => {
            RunControl::ResumeAfterSyscall { next_pc: pc + SYSCALL_INSTRUCTION_LENGTH }
        },
        _ => RunControl::Halt,
    }
}

/// How many exit reasons at the front of a scripted session are syscall
/// traps: the number of times the run loop resumes before halting.
pub open spec fn spec_leading_syscalls(script: Seq<ExitReason>) -> int
    decreases script.len(),
{
    if script.len() == 0 {
        0
    } else if spec_is_syscall_trap(script[0]) {
        1 + spec_leading_syscalls(script.drop_first())
    } else {
        0
    }
}

/// When the first `i` reasons are traps and the `i`-th (if any) is not,
/// exactly `i` resumptions happen.
proof fn lemma_leading_syscalls_prefix(script: Seq<ExitReason>, i: int)
    requires
        0 <= i <= script.len(),
        forall|j: int| 0 <= j < i ==> spec_is_syscall_trap(script[j]),
        i == script.len() || !spec_is_syscall_trap(script[i]),
    ensures
        spec_leading_syscalls(script) == i,
    decreases i,
{
    if i == 0 {
    } else {
        assert(spec_is_syscall_trap(script[0]));
        lemma_leading_syscalls_prefix(script.drop_first(), i - 1);
    }
}

/// The scripted session "one syscall trap, then anything that halts"
/// resumes exactly once: the run loop advances the program counter by
/// exactly one trap-instruction length before returning.
pub proof fn lemma_single_trap_pc_advance(first: ExitReason, second: ExitReason)
    requires
        spec_is_syscall_trap(first),
        !spec_is_syscall_trap(second),
    ensures
        spec_leading_syscalls(seq![first, second]) == 1,
{
    let s = seq![first, second];
    assert(s.drop_first() =~= seq![second]);
    assert(spec_leading_syscalls(seq![second]) == 0);
}

/// A planned register write: the engine commits exactly `bytes` — whose
/// length is the resolved width — into the storage `var` references.
pub struct RegisterWrite {
    /// The handle whose storage the write targets.
    pub var: VarHandle,
    /// Exactly `var.size` bytes: the caller's data truncated or
    /// zero-extended to the resolved width.
    pub bytes: Vec<u8>,
}

/// A pair of caller-supplied access handlers for one MMIO region; the
/// engine invokes them synchronously whenever emulated code touches the
/// mapped range.
pub struct MmioHandler<R, W> {
    read_handler: R,
    write_handler: W,
}

impl<R, W> MmioHandler<R, W> {
    /// The handler invoked for reads from the region.
    pub closed spec fn read_fn(&self) -> R {
        self.read_handler
    }

    /// The handler invoked for writes to the region.
    pub closed spec fn write_fn(&self) -> W {
        self.write_handler
    }

    pub fn new(read_function: R, write_function: W) -> (handler: Self)
        ensures
            handler.read_fn() == read_function,
            handler.write_fn() == write_function,
    {
        MmioHandler { read_handler: read_function, write_handler: write_function }
    }

    /// Hands the read handler out for the engine to invoke.
    pub fn read_handler(&self) -> (r: &R)
        ensures
            *r == self.read_fn(),
    {
        &self.read_handler
    }

    /// Hands the write handler out for the engine to invoke.
    pub fn write_handler(&self) -> (w: &W)
        ensures
            *w == self.write_fn(),
    {
        &self.write_handler
    }
}

/// The facade over one engine instance: the resolution table built for
/// that instance and the syscall hook registry, with the decision logic
/// of the operational surface.
pub struct IcicleEmulator<F> {
    reg: ResolutionTable,
    syscall_hooks: HookContainer<F>,
}

impl<F> IcicleEmulator<F> {
    /// The instance's resolution table.
    pub closed spec fn resolution(&self) -> ResolutionTable {
        self.reg
    }

    /// The registered syscall hooks: (sequence number, callback) pairs in
    /// registration order.
    pub closed spec fn syscall_entries(&self) -> Seq<(u32, F)> {
        self.syscall_hooks.entries()
    }

    /// The last syscall sequence number issued.
    pub closed spec fn syscall_counter(&self) -> u32 {
        self.syscall_hooks.seq_counter()
    }

    pub closed spec fn wf(&self) -> bool {
        &&& self.reg.wf()
        &&& self.syscall_hooks.wf()
    }

    /// Builds the facade for one engine instance from the instance's
    /// register descriptor set. Fails fast — before any operation — when
    /// the descriptor set does not cover the catalog.
    pub fn new(descriptors: &Vec<RegDescriptor>) -> (res: Result<Self, BuildError>)
        ensures
            match res {
                Ok(em) => {
                    &&& em.wf()
                    &&& em.resolution().resolved_from(descriptors@)
                    &&& em.syscall_counter() == 0
                    &&& em.syscall_entries() =~= Seq::<(u32, F)>::empty()
                    &&& spec_buildable(descriptors@)
                },
                Err(e) => {
                    &&& build_error_witnessed(descriptors@, e)
                    &&& !spec_buildable(descriptors@)
                },
            },
    {
        match ResolutionTable::build(descriptors) {
            Ok(table) => Ok(IcicleEmulator { reg: table, syscall_hooks: HookContainer::new() }),
            Err(e) => Err(e),
        }
    }

    /// The last syscall sequence number issued, so a caller can see
    /// whether the 24-bit sequence space still has room.
    pub fn syscall_sequence(&self) -> (n: u32)
        ensures
            n == self.syscall_counter(),
    {
        self.syscall_hooks.last_sequence()
    }

    /// Registers a syscall hook and returns its qualified 32-bit
    /// identifier: the fresh sequence number tagged with the syscall
    /// category.
    pub fn add_syscall_hook(&mut self, callback: F) -> (id: u32)
        requires
            old(self).wf(),
            old(self).syscall_counter() < MAX_SEQUENCE,
        ensures
            final(self).wf(),
            final(self).resolution() == old(self).resolution(),
            final(self).syscall_counter() == old(self).syscall_counter() + 1,
            final(self).syscall_entries() == old(self).syscall_entries().push(
                (((old(self).syscall_counter() + 1) as u32), callback),
            ),
            id == spec_qualify_hook_id((old(self).syscall_counter() + 1) as u32, HookType::Syscall),
    {
        let hook_id = self.syscall_hooks.add_hook(callback);
        qualify_hook_id(hook_id, HookType::Syscall)
    }

    /// Removes the hook the identifier names. An identifier whose
    /// category is not wired to a registry, or whose sequence number
    /// names no live hook, is silently ignored.
    pub fn remove_hook(&mut self, id: u32)
        requires
            old(self).wf(),
        ensures
            final(self).wf(),
            final(self).resolution() == old(self).resolution(),
            final(self).syscall_counter() == old(self).syscall_counter(),
            spec_hook_type_of_code((id >> 24) as u8) == HookType::Syscall
                ==> final(self).syscall_entries() == remove_entry(
                old(self).syscall_entries(),
                id & 0x00FF_FFFF,
            ),
            spec_hook_type_of_code((id >> 24) as u8) != HookType::Syscall
                ==> final(self).syscall_entries() == old(self).syscall_entries(),
    {
        let (hook_id, hook_type) = split_hook_id(id);
        match hook_type {
            HookType::Syscall => self.syscall_hooks.remove_hook(hook_id),
            _ => {},
        }
    }

    /// The engine state-variable handle a catalog entry resolves to, for
    /// the caller to read from or commit to the engine's storage.
    pub fn resolve_register(&self, reg: X64Register) -> (r: Option<VarHandle>)
        ensures
            r == self.resolution().lookup(reg),
    {
        self.reg.resolve(reg)
    }

    /// Plans a register read. `value` is the register's current content as
    /// the engine reports it, zero-extended to the canonical width. The
    /// first `min(resolved width, buffer.len())` bytes of the caller's
    /// buffer receive the value; the rest of the buffer is untouched; the
    /// returned count is the full resolved width even when the buffer is
    /// shorter, so a caller can detect truncation.
    pub fn read_register(&self, reg: X64Register, value: &[u8], buffer: &mut Vec<u8>) -> (res:
        Result<usize, AccessError>)
        requires
            self.wf(),
            value@.len() == CANONICAL_REGISTER_WIDTH,
        ensures
            res is Ok <==> self.resolution().lookup(reg) is Some,
            res matches Ok(width) ==> {
                let h = self.resolution().lookup(reg).unwrap();
                &&& width == h.size as usize
                &&& final(buffer)@.len() == old(buffer)@.len()
                &&& forall|i: int|
                    0 <= i < vstd::math::min(h.size as int, old(buffer)@.len() as int)
                        ==> final(buffer)@[i] == value@[i]
                &&& forall|i: int|
                    vstd::math::min(h.size as int, old(buffer)@.len() as int) <= i < old(
                        buffer,
                    )@.len() ==> final(buffer)@[i] == old(buffer)@[i]
            },
            res is Err ==> final(buffer)@ == old(buffer)@ && res == Err::<usize, AccessError>(
                AccessError::UnsupportedRegister,
            ),
    {
        match self.reg.resolve(reg) {
            None => Err(AccessError::UnsupportedRegister),
            Some(h) => {
                let width = h.size as usize;
                let limit = if width < buffer.len() {
                    width
                } else {
                    buffer.len()
                };
                let mut i: usize = 0;
                while i < limit
                    invariant
                        0 <= i <= limit,
                        limit == vstd::math::min(h.size as int, old(buffer)@.len() as int),
                        h.size <= 32,
                        value@.len() == 32,
                        buffer@.len() == old(buffer)@.len(),
                        forall|j: int| 0 <= j < i ==> buffer@[j] == value@[j],
                        forall|j: int|
                            i <= j < old(buffer)@.len() ==> buffer@[j] == old(buffer)@[j],
                    decreases limit - i,
                {
                    buffer.set(i, value[i]);
                    i = i + 1;
                }
                Ok(width)
            },
        }
    }

    /// Plans a register write: the caller's data truncated to the
    /// resolved width, zero-extended when shorter, exactly as the engine
    /// must commit it. Bytes of the underlying storage outside the
    /// resolved view stay with the engine, untouched.
    pub fn write_register(&self, reg: X64Register, data: &[u8]) -> (res: Result<
        RegisterWrite,
        AccessError,
    >)
        requires
            self.wf(),
        ensures
            res is Ok <==> self.resolution().lookup(reg) is Some,
            res matches Ok(w) ==> {
                let h = self.resolution().lookup(reg).unwrap();
                &&& w.var == h
                &&& w.bytes@.len() == h.size as int
                &&& forall|i: int|
                    0 <= i < h.size as int ==> w.bytes@[i] == (if i < data@.len() {
                        data@[i]
                    } else {
                        0u8
                    })
            },
            res is Err ==> res == Err::<RegisterWrite, AccessError>(
                AccessError::UnsupportedRegister,
            ),
    {
        match self.reg.resolve(reg) {
            None => Err(AccessError::UnsupportedRegister),
            Some(h) => {
                let width = h.size as usize;
                let mut bytes: Vec<u8> = Vec::new();
                let mut i: usize = 0;
                while i < width
                    invariant
                        0 <= i <= width,
                        bytes@.len() == i,
                        forall|j: int|
                            0 <= j < i ==> bytes@[j] == (if j < data@.len() {
                                data@[j]
                            } else {
                                0u8
                            }),
                    decreases width - i,
                {
                    if i < data.len() {
                        bytes.push(data[i]);
                    } else {
                        bytes.push(0);
                    }
                    i = i + 1;
                }
                Ok(RegisterWrite { var: h, bytes })
            },
        }
    }
}

impl<F: Fn()> IcicleEmulator<F> {
    /// Drives one session over a scripted sequence of engine exit
    /// reasons: each leading syscall trap fans out to every registered
    /// hook — each exactly once per trap — and advances the program
    /// counter past the trap instruction; the first other reason (or the
    /// end of the script) halts the session and returns the final
    /// program counter.
    pub fn start(&self, script: &Vec<ExitReason>, initial_pc: u64) -> (final_pc: u64)
        requires
            forall|i: int|
                0 <= i < self.syscall_entries().len() ==> call_requires(
                    (#[trigger] self.syscall_entries()[i]).1,
                    (),
                ),
            initial_pc + SYSCALL_INSTRUCTION_LENGTH * script@.len() <= u64::MAX,
        ensures
            final_pc == initial_pc + SYSCALL_INSTRUCTION_LENGTH * spec_leading_syscalls(script@),
    {
        let n = script.len();
        let mut pc = initial_pc;
        let mut i: usize = 0;
        while i < n
            invariant
                0 <= i <= n,
                n == script@.len(),
                pc == initial_pc + SYSCALL_INSTRUCTION_LENGTH * i,
                initial_pc + SYSCALL_INSTRUCTION_LENGTH * script@.len() <= u64::MAX,
                forall|j: int| 0 <= j < i ==> spec_is_syscall_trap(script@[j]),
                forall|x: int|
                    0 <= x < self.syscall_entries().len() ==> call_requires(
                        (#[trigger] self.syscall_entries()[x]).1,
                        (),
                    ),
            decreases n - i,
        {
            let control = handle_exit(script[i], pc);
            match control {
                RunControl::Halt => {
                    proof {
                        lemma_leading_syscalls_prefix(script@, i as int);
                    }
                    return pc;
                },
                RunControl::ResumeAfterSyscall { next_pc } => {
                    let hook_list = self.syscall_hooks.get_hooks();
                    let m = hook_list.len();
                    let mut j: usize = 0;
                    while j < m
                        invariant
                            0 <= j <= m,
                            m == hook_list@.len(),
                            hook_list@ == self.syscall_entries(),
                            forall|x: int|
                                0 <= x < self.syscall_entries().len() ==> call_requires(
                                    (#[trigger] self.syscall_entries()[x]).1,
                                    (),
                                ),
                        decreases m - j,
                    {
                        (hook_list[j].1)();
                        j = j + 1;
                    }
                    pc = next_pc;
                    i = i + 1;
                },
            }
        }
        proof {
            lemma_leading_syscalls_prefix(script@, n as int);
        }
        pc
    }
}

/// In a well-formed facade no two registered syscall hooks share a
/// sequence number, so the fan-out a trap triggers — one walk over the
/// registered entries — reaches every live hook exactly once.
pub proof fn lemma_syscall_fanout_once<F>(em: &IcicleEmulator<F>)
    requires
        em.wf(),
    ensures
        forall|i: int, j: int|
            0 <= i < em.syscall_entries().len() && 0 <= j < em.syscall_entries().len() && i != j
                ==> (#[trigger] em.syscall_entries()[i]).0 != (
            #[trigger] em.syscall_entries()[j]).0,
{
    crate::hooks::lemma_entries_distinct(em.syscall_hooks);
}

/// The success flag of the thin memory operations, in the C boundary's
/// integer convention.
pub fn to_cbool(value: bool) -> (r: i32)
    ensures
        value ==> r == 1,
        !value ==> r == 0,
{
    if value {
        return 1;
    }
    0
}

} // verus!
