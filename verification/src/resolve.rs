//! The register resolution table.
//!
//! Built once per emulator instance from the engine's runtime register
//! descriptor set, the table maps every resolvable catalog entry to the
//! engine state-variable handle found under the entry's architecture-fixed
//! descriptor name. A missing name or an unsupported resolved width is an
//! initialization-fatal error: it signals an incompatible engine build,
//! never a per-call condition. Entries that alias the same underlying
//! storage carry the same descriptor name and therefore resolve to the
//! same handle; the table never invents a flat register file of its own.

use vstd::prelude::*;
use crate::registers::{
    X64Register, spec_resolvable, spec_register_name, register_name, catalog, spec_reg_index,
};

verus! {

/// An engine state-variable handle: a storage location and its byte width.
/// The handle references storage owned by the engine; overlapping handles
/// are views of the same physical register.
#[derive(Clone, Copy, PartialEq, Eq, Structural, Debug)]
pub struct VarHandle {
    /// The storage location within the engine's state.
    pub offset: u64,
    /// The width of this view, in bytes.
    pub size: u8,
}

/// One entry of the engine's register descriptor set: a name and the
/// handle registered under it.
#[derive(Clone, Debug)]
pub struct RegDescriptor {
    pub name: String,
    pub var: VarHandle,
}

/// Why building a resolution table failed. Both variants indicate a
/// mismatch between the catalog and the engine build; neither is a
/// recoverable runtime condition.
#[derive(Clone, Copy, PartialEq, Eq, Structural, Debug)]
pub enum BuildError {
    /// The named catalog entry has no descriptor in the engine's set.
    UnknownRegisterName(X64Register),
    /// The entry resolved, but to a width outside the supported set.
    UnsupportedWidth(X64Register, u8),
}

/// The widths register access supports: 1 through 16 bytes, plus 32 for
/// the wide vector registers.
pub open spec fn supported_width(width: u8) -> bool {
    (1 <= width <= 16) || width == 32
}

/// The handle of the first descriptor carrying `name`, if any.
pub open spec fn spec_find_descriptor(
    descriptors: Seq<RegDescriptor>,
    name: Seq<char>,
) -> Option<VarHandle>
    decreases descriptors.len(),
{
    if descriptors.len() == 0 {
        None
    } else if descriptors[0].name@ == name {
        Some(descriptors[0].var)
    } else {
        spec_find_descriptor(descriptors.drop_first(), name)
    }
}

/// First-match lookup in the descriptor set by name.
pub fn find_descriptor(descriptors: &Vec<RegDescriptor>, name: &String) -> (r: Option<
    VarHandle,
>)
    ensures
        r == spec_find_descriptor(descriptors@, name@),
{
    let n = descriptors.len();
    let mut i: usize = 0;
    proof {
        assert(descriptors@.skip(0) =~= descriptors@);
    }
    while i < n
        invariant
            0 <= i <= n,
            n == descriptors@.len(),
            spec_find_descriptor(descriptors@, name@) == spec_find_descriptor(
                descriptors@.skip(i as int),
                name@,
            ),
        decreases n - i,
    {
        proof {
            assert(descriptors@.skip(i as int)[0] == descriptors@[i as int]);
        }
        if descriptors[i].name == *name {
            return Some(descriptors[i].var);
        }
        proof {
            assert(descriptors@.skip(i as int).drop_first() =~= descriptors@.skip(i as int + 1));
        }
        i = i + 1;
    }
    proof {
        assert(descriptors@.skip(n as int) =~= Seq::<RegDescriptor>::empty());
    }
    None
}

/// The handle stored under `reg` in an association list, first match.
pub open spec fn spec_lookup(
    entries: Seq<(X64Register, VarHandle)>,
    reg: X64Register,
) -> Option<VarHandle>
    decreases entries.len(),
{
    if entries.len() == 0 {
        None
    } else if entries[0].0 == reg {
        Some(entries[0].1)
    } else {
        spec_lookup(entries.drop_first(), reg)
    }
}

/// Appending an entry changes a lookup only where it found nothing and the
/// new entry's key is the one looked up.
proof fn lemma_lookup_push(
    entries: Seq<(X64Register, VarHandle)>,
    key: X64Register,
    var: VarHandle,
    reg: X64Register,
)
    ensures
        spec_lookup(entries.push((key, var)), reg) == (if spec_lookup(entries, reg) is Some {
            spec_lookup(entries, reg)
        } else if reg == key {
            Some(var)
        } else {
            None::<VarHandle>
        }),
    decreases entries.len(),
{
    if entries.len() == 0 {
        assert(entries.push((key, var)).drop_first() =~= Seq::<(X64Register, VarHandle)>::empty());
    } else {
        assert(entries.push((key, var))[0] == entries[0]);
        assert(entries.push((key, var)).drop_first() =~= entries.drop_first().push((key, var)));
        lemma_lookup_push(entries.drop_first(), key, var, reg);
    }
}

/// Whether a descriptor set supports building a complete table: every
/// resolvable catalog entry's name is present and resolves to a supported
/// width.
pub open spec fn spec_buildable(descriptors: Seq<RegDescriptor>) -> bool {
    forall|reg: X64Register|
        spec_resolvable(reg) ==> {
            let found = #[trigger] spec_find_descriptor(descriptors, spec_register_name(reg));
            &&& found is Some
            &&& supported_width(found.unwrap().size)
        }
}

/// The error a failed build reports names an actual offender in the
/// descriptor set.
pub open spec fn build_error_witnessed(descriptors: Seq<RegDescriptor>, e: BuildError) -> bool {
    match e {
        BuildError::UnknownRegisterName(reg) => {
            &&& spec_resolvable(reg)
            &&& spec_find_descriptor(descriptors, spec_register_name(reg)) is None
        },
        BuildError::UnsupportedWidth(reg, width) => {
            &&& spec_resolvable(reg)
            &&& spec_find_descriptor(descriptors, spec_register_name(reg)) matches Some(h)
                && h.size == width
            &&& !supported_width(width)
        },
    }
}

/// The per-instance mapping from catalog entries to engine state-variable
/// handles.
pub struct ResolutionTable {
    entries: Vec<(X64Register, VarHandle)>,
}

impl ResolutionTable {
    /// The handle a catalog entry resolves to; `None` for reserved
    /// entries and for entries the table was never given.
    pub closed spec fn lookup(&self, reg: X64Register) -> Option<VarHandle> {
        spec_lookup(self.entries@, reg)
    }

    /// Every handle the table hands out has a supported width.
    pub open spec fn wf(&self) -> bool {
        forall|reg: X64Register|
            (#[trigger] self.lookup(reg)) matches Some(h) ==> supported_width(h.size)
    }

    /// The table is exactly what resolving the catalog against
    /// `descriptors` yields: every resolvable entry maps to the first
    /// descriptor carrying its name, and nothing else resolves.
    pub open spec fn resolved_from(&self, descriptors: Seq<RegDescriptor>) -> bool {
        forall|reg: X64Register|
            (#[trigger] self.lookup(reg)) == (if spec_resolvable(reg) {
                spec_find_descriptor(descriptors, spec_register_name(reg))
            } else {
                None::<VarHandle>
            })
    }

    /// Resolves every catalog entry against the descriptor set. Fails
    /// fast — with the offending entry — when an expected name is absent
    /// or resolves to an unsupported width; succeeds exactly when the
    /// descriptor set covers the catalog.
    pub fn build(descriptors: &Vec<RegDescriptor>) -> (res: Result<ResolutionTable, BuildError>)
        ensures
            match res {
                Ok(t) => {
                    &&& t.wf()
                    &&& t.resolved_from(descriptors@)
                    &&& spec_buildable(descriptors@)
                },
                Err(e) => {
                    &&& build_error_witnessed(descriptors@, e)
                    &&& !spec_buildable(descriptors@)
                },
            },
    {
        let regs = catalog();
        let n = regs.len();
        let mut entries: Vec<(X64Register, VarHandle)> = Vec::new();
        let mut k: usize = 0;
        while k < n
            invariant
                0 <= k <= n,
                n == regs@.len(),
                n == crate::registers::REGISTER_COUNT,
                forall|reg: X64Register| 0 <= #[trigger] spec_reg_index(reg) < n,
                forall|reg: X64Register| regs@[spec_reg_index(reg)] == reg,
                forall|j: int|
                    0 <= j < k && spec_resolvable(#[trigger] regs@[j]) ==> spec_lookup(
                        entries@,
                        regs@[j],
                    ) is Some,
                forall|reg: X64Register|
                    (#[trigger] spec_lookup(entries@, reg)) is Some ==> {
                        &&& spec_resolvable(reg)
                        &&& spec_lookup(entries@, reg) == spec_find_descriptor(
                            descriptors@,
                            spec_register_name(reg),
                        )
                        &&& supported_width(spec_lookup(entries@, reg).unwrap().size)
                    },
            decreases n - k,
        {
            let reg = regs[k];
            match register_name(reg) {
                None => {
                },
                Some(name) => {
                    match find_descriptor(descriptors, &name.to_owned()) {
                        None => {
                            return Err(BuildError::UnknownRegisterName(reg));
                        },
                        Some(h) => {
                            if 1 <= h.size && (h.size <= 16 || h.size == 32) {
                                proof {
                                    lemma_lookup_push_all(entries@, reg, h);
                                }
                                entries.push((reg, h));
                            } else {
                                return Err(BuildError::UnsupportedWidth(reg, h.size));
                            }
                        },
                    }
                },
            }
            k = k + 1;
        }
        proof {
            assert forall|reg: X64Register| spec_resolvable(reg) implies {
                &&& spec_lookup(entries@, reg) == spec_find_descriptor(
                    descriptors@,
                    spec_register_name(reg),
                )
                &&& spec_lookup(entries@, reg) is Some
                &&& supported_width(spec_lookup(entries@, reg).unwrap().size)
            } by {
                let j = spec_reg_index(reg);
                assert(regs@[j] == reg);
                assert(spec_lookup(entries@, regs@[j]) is Some);
            }
            assert forall|reg: X64Register| !spec_resolvable(reg) implies spec_lookup(
                entries@,
                reg,
            ) is None by {
                if spec_lookup(entries@, reg) is Some {
                    assert(spec_resolvable(reg));
                }
            }
        }
        Ok(ResolutionTable { entries })
    }

    /// Resolves one catalog entry.
    pub fn resolve(&self, reg: X64Register) -> (r: Option<VarHandle>)
        ensures
            r == self.lookup(reg),
    {
        let n = self.entries.len();
        let mut i: usize = 0;
        proof {
            assert(self.entries@.skip(0) =~= self.entries@);
        }
        while i < n
            invariant
                0 <= i <= n,
                n == self.entries@.len(),
                spec_lookup(self.entries@, reg) == spec_lookup(self.entries@.skip(i as int), reg),
            decreases n - i,
        {
            proof {
                assert(self.entries@.skip(i as int)[0] == self.entries@[i as int]);
            }
            if self.entries[i].0 == reg {
                return Some(self.entries[i].1);
            }
            proof {
                assert(self.entries@.skip(i as int).drop_first() =~= self.entries@.skip(
                    i as int + 1,
                ));
            }
            i = i + 1;
        }
        proof {
            assert(self.entries@.skip(n as int) =~= Seq::<(X64Register, VarHandle)>::empty());
        }
        None
    }
}

/// Helper for `build`: the effect of one push on every lookup at once.
proof fn lemma_lookup_push_all(
    entries: Seq<(X64Register, VarHandle)>,
    key: X64Register,
    var: VarHandle,
)
    ensures
        forall|reg: X64Register|
            #[trigger] spec_lookup(entries.push((key, var)), reg) == (if spec_lookup(
                entries,
                reg,
            ) is Some {
                spec_lookup(entries, reg)
            } else if reg == key {
                Some(var)
            } else {
                None::<VarHandle>
            }),
{
    assert forall|reg: X64Register|
        #[trigger] spec_lookup(entries.push((key, var)), reg) == (if spec_lookup(
            entries,
            reg,
        ) is Some {
            spec_lookup(entries, reg)
        } else if reg == key {
            Some(var)
        } else {
            None::<VarHandle>
        }) by {
        lemma_lookup_push(entries, key, var, reg);
    }
}

/// Catalog entries that alias the same underlying storage carry the same
/// descriptor name, so a table built from any descriptor set resolves them
/// to the same handle: the table preserves the engine's aliasing instead
/// of inventing a flat register file.
pub proof fn lemma_aliases_share_handle(
    t: &ResolutionTable,
    descriptors: Seq<RegDescriptor>,
    r1: X64Register,
    r2: X64Register,
)
    requires
        t.resolved_from(descriptors),
        spec_resolvable(r1),
        spec_resolvable(r2),
        spec_register_name(r1) == spec_register_name(r2),
    ensures
        t.lookup(r1) == t.lookup(r2),
{
}

/// The one alias pair the catalog itself encodes: every entry of the
/// legacy floating-point bank carries the name of the corresponding
/// stack-register entry, so any table resolves the two banks identically.
pub proof fn lemma_fp_bank_aliases_st_bank(t: &ResolutionTable, descriptors: Seq<RegDescriptor>)
    requires
        t.resolved_from(descriptors),
    ensures
        t.lookup(X64Register::Fp0) == t.lookup(X64Register::St0),
        t.lookup(X64Register::Fp1) == t.lookup(X64Register::St1),
        t.lookup(X64Register::Fp2) == t.lookup(X64Register::St2),
        t.lookup(X64Register::Fp3) == t.lookup(X64Register::St3),
        t.lookup(X64Register::Fp4) == t.lookup(X64Register::St4),
        t.lookup(X64Register::Fp5) == t.lookup(X64Register::St5),
        t.lookup(X64Register::Fp6) == t.lookup(X64Register::St6),
        t.lookup(X64Register::Fp7) == t.lookup(X64Register::St7),
{
    lemma_aliases_share_handle(t, descriptors, X64Register::Fp0, X64Register::St0);
    lemma_aliases_share_handle(t, descriptors, X64Register::Fp1, X64Register::St1);
    lemma_aliases_share_handle(t, descriptors, X64Register::Fp2, X64Register::St2);
    lemma_aliases_share_handle(t, descriptors, X64Register::Fp3, X64Register::St3);
    lemma_aliases_share_handle(t, descriptors, X64Register::Fp4, X64Register::St4);
    lemma_aliases_share_handle(t, descriptors, X64Register::Fp5, X64Register::St5);
    lemma_aliases_share_handle(t, descriptors, X64Register::Fp6, X64Register::St6);
    lemma_aliases_share_handle(t, descriptors, X64Register::Fp7, X64Register::St7);
}

} // verus!
