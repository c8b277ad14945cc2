//! Hook identifiers and the per-category hook registry.
//!
//! A hook identifier is a 32-bit value packing a category tag into the top
//! 8 bits and a sequence number into the low 24 bits. Distinct categories
//! never collide, and the pair can always be recovered from the packed
//! value. The registry owns the registered callbacks and issues strictly
//! increasing sequence numbers, so a number is never reused within one
//! category for the lifetime of the registry.

use vstd::prelude::*;

verus! {

/// Largest sequence number that fits in the low 24 bits of a hook
/// identifier. Sequence numbers start at 1; 0 is reserved as "no hook".
pub const MAX_SEQUENCE: u32 = 0x00FF_FFFF;

/// The hook categories multiplexed into one identifier space. Only the
/// syscall category is wired to a live registry; the others reserve
/// encoding space. `Unknown` is the fallback for unrecognized tags.
#[derive(Clone, Copy, PartialEq, Eq, Structural, Debug)]
pub enum HookType {
    Syscall,
    Read,
    Write,
    Execute,
    Unknown,
}

/// The byte tag of a hook category.
pub open spec fn spec_hook_type_code(t: HookType) -> u8 {
    match t {
        HookType::Syscall => 1,
        HookType::Read => 2,
        HookType::Write => 3,
        HookType::Execute => 4,
        HookType::Unknown => 5,
    }
}

/// The category a byte tag names, with `Unknown` for every unrecognized
/// value; the inverse of `spec_hook_type_code` on recognized tags.
pub open spec fn spec_hook_type_of_code(code: u8) -> HookType {
    if code == 1 {
        HookType::Syscall
    } else if code == 2 {
        HookType::Read
    } else if code == 3 {
        HookType::Write
    } else if code == 4 {
        HookType::Execute
    } else {
        HookType::Unknown
    }
}

pub fn hook_type_code(t: HookType) -> (code: u8)
    ensures
        code == spec_hook_type_code(t),
{
    match t {
        HookType::Syscall => 1,
        HookType::Read => 2,
        HookType::Write => 3,
        HookType::Execute => 4,
        HookType::Unknown => 5,
    }
}

/// Checked conversion from a raw byte to a category: a tag outside the
/// recognized range maps to `Unknown` instead of being reinterpreted.
pub fn hook_type_of_code(code: u8) -> (t: HookType)
    ensures
        t == spec_hook_type_of_code(code),
{
    if code == 1 {
        HookType::Syscall
    } else if code == 2 {
        HookType::Read
    } else if code == 3 {
        HookType::Write
    } else if code == 4 {
        HookType::Execute
    } else {
        HookType::Unknown
    }
}

/// The packed identifier for a (sequence, category) pair.
pub open spec fn spec_qualify_hook_id(hook_id: u32, hook_type: HookType) -> u32 {
    hook_id | ((spec_hook_type_code(hook_type) as u32) << 24)
}

/// Packs a category tag into the top 8 bits of a sequence number.
pub fn qualify_hook_id(hook_id: u32, hook_type: HookType) -> (id: u32)
    requires
        hook_id <= MAX_SEQUENCE,
    ensures
        id == spec_qualify_hook_id(hook_id, hook_type),
{
    let code: u32 = hook_type_code(hook_type) as u32;
    hook_id | (code << 24)
}

/// Splits a packed identifier back into its sequence number and the
/// category its tag byte names.
pub fn split_hook_id(id: u32) -> (r: (u32, HookType))
    ensures
        r.0 == id & 0x00FF_FFFF,
        r.0 <= MAX_SEQUENCE,
        r.1 == spec_hook_type_of_code((id >> 24) as u8),
{
    let hook_id = id & 0x00FF_FFFF;
    let hook_type = hook_type_of_code((id >> 24) as u8);
    assert(id & 0x00FF_FFFF <= 0x00FF_FFFFu32) by (bit_vector);
    (hook_id, hook_type)
}

/// Splitting a packed identifier recovers exactly the sequence number and
/// category that were packed, for every in-range sequence number and every
/// category.
pub proof fn lemma_hook_id_roundtrip(hook_id: u32, hook_type: HookType)
    requires
        hook_id <= MAX_SEQUENCE,
    ensures
        spec_qualify_hook_id(hook_id, hook_type) & 0x00FF_FFFF == hook_id,
        spec_hook_type_of_code((spec_qualify_hook_id(hook_id, hook_type) >> 24) as u8)
            == hook_type,
{
    let code = spec_hook_type_code(hook_type);
    assert((hook_id | ((code as u32) << 24)) & 0x00FF_FFFF == hook_id) by (bit_vector)
        requires
            hook_id <= 0x00FF_FFFFu32,
    ;
    assert(((hook_id | ((code as u32) << 24)) >> 24) as u8 == code) by (bit_vector)
        requires
            hook_id <= 0x00FF_FFFFu32,
    ;
    assert(spec_hook_type_of_code(code) == hook_type);
}

/// Identifiers from different categories never collide, whatever the two
/// sequence numbers are.
pub proof fn lemma_hook_id_categories_disjoint(
    id1: u32,
    t1: HookType,
    id2: u32,
    t2: HookType,
)
    requires
        id1 <= MAX_SEQUENCE,
        id2 <= MAX_SEQUENCE,
        t1 != t2,
    ensures
        spec_qualify_hook_id(id1, t1) != spec_qualify_hook_id(id2, t2),
{
    lemma_hook_id_roundtrip(id1, t1);
    lemma_hook_id_roundtrip(id2, t2);
    assert(spec_hook_type_code(t1) != spec_hook_type_code(t2));
}

/// A per-category hook store: maps sequence numbers to owned callbacks and
/// issues fresh, strictly increasing sequence numbers starting at 1.
pub struct HookContainer<F> {
    hook_id: u32,
    hooks: Vec<(u32, F)>,
}

/// The entries of `s` with the first `id`-keyed entry dropped; `s`
/// unchanged when no entry carries `id`.
pub open spec fn remove_entry<F>(s: Seq<(u32, F)>, id: u32) -> Seq<(u32, F)>
    decreases s.len(),
{
    if s.len() == 0 {
        Seq::empty()
    } else if s[0].0 == id {
        s.drop_first()
    } else {
        seq![s[0]] + remove_entry(s.drop_first(), id)
    }
}

impl<F> HookContainer<F> {
    /// The registered (sequence number, callback) pairs, in registration
    /// order.
    pub closed spec fn entries(&self) -> Seq<(u32, F)> {
        self.hooks@
    }

    /// The last sequence number issued; 0 before any registration.
    pub closed spec fn seq_counter(&self) -> u32 {
        self.hook_id
    }

    /// Sequence numbers are strictly increasing in registration order and
    /// never exceed the counter that issued them.
    pub closed spec fn wf(&self) -> bool {
        &&& forall|i: int, j: int|
            0 <= i < j < self.hooks@.len() ==> self.hooks@[i].0 < self.hooks@[j].0
        &&& forall|i: int|
            0 <= i < self.hooks@.len() ==> 1 <= #[trigger] self.hooks@[i].0 <= self.hook_id
    }

    pub fn new() -> (c: Self)
        ensures
            c.wf(),
            c.seq_counter() == 0,
            c.entries() =~= Seq::<(u32, F)>::empty(),
    {
        HookContainer { hook_id: 0, hooks: Vec::new() }
    }

    /// Stores the callback under the next sequence number and returns that
    /// number. Numbers increase strictly across registrations, so a number
    /// freed by `remove_hook` is never issued again.
    pub fn add_hook(&mut self, callback: F) -> (id: u32)
        requires
            old(self).wf(),
            old(self).seq_counter() < MAX_SEQUENCE,
        ensures
            final(self).wf(),
            id == old(self).seq_counter() + 1,
            1 <= id <= MAX_SEQUENCE,
            final(self).seq_counter() == id,
            final(self).entries() == old(self).entries().push((id, callback)),
    {
        self.hook_id = self.hook_id + 1;
        let id = self.hook_id;
        self.hooks.push((id, callback));
        id
    }

    /// The last sequence number issued, so a caller can see whether the
    /// 24-bit sequence space still has room before registering.
    pub fn last_sequence(&self) -> (n: u32)
        ensures
            n == self.seq_counter(),
    {
        self.hook_id
    }

    /// The registered hooks, for the caller to enumerate. The registry is a
    /// key-value mapping; enumeration order carries no meaning.
    pub fn get_hooks(&self) -> (hooks: &Vec<(u32, F)>)
        ensures
            hooks@ == self.entries(),
    {
        &self.hooks
    }

    /// Drops the callback stored under `id`; a no-op when `id` names no
    /// live hook. The sequence counter is unchanged either way.
    pub fn remove_hook(&mut self, id: u32)
        requires
            old(self).wf(),
        ensures
            final(self).wf(),
            final(self).seq_counter() == old(self).seq_counter(),
            final(self).entries() == remove_entry(old(self).entries(), id),
    {
        let n = self.hooks.len();
        let mut i: usize = 0;
        while i < n
            invariant
                n == self.hooks@.len(),
                0 <= i <= n,
                self.hooks@ == old(self).hooks@,
                self.hook_id == old(self).hook_id,
                old(self).wf(),
                forall|j: int| 0 <= j < i ==> self.hooks@[j].0 != id,
            decreases n - i,
        {
            if self.hooks[i].0 == id {
                proof {
                    lemma_remove_entry_found(old(self).entries(), id, i as int);
                }
                self.hooks.remove(i);
                proof {
                    assert(self.hooks@ =~= old(self).hooks@.subrange(0, i as int)
                        + old(self).hooks@.subrange(i as int + 1, n as int));
                }
                return;
            }
            i = i + 1;
        }
        proof {
            lemma_remove_entry_absent(self.entries(), id);
        }
    }
}

/// When the first `id`-keyed entry of `s` sits at index `i`, dropping it is
/// exactly `Seq::remove(i)`.
proof fn lemma_remove_entry_found<F>(s: Seq<(u32, F)>, id: u32, i: int)
    requires
        0 <= i < s.len(),
        s[i].0 == id,
        forall|j: int| 0 <= j < i ==> s[j].0 != id,
    ensures
        remove_entry(s, id) == s.remove(i),
    decreases i,
{
    if i == 0 {
        assert(remove_entry(s, id) == s.drop_first());
        assert(s.drop_first() =~= s.remove(0));
    } else {
        lemma_remove_entry_found(s.drop_first(), id, i - 1);
        assert(remove_entry(s, id) == seq![s[0]] + remove_entry(s.drop_first(), id));
        assert(seq![s[0]] + s.drop_first().remove(i - 1) =~= s.remove(i));
    }
}

/// When no entry of `s` carries `id`, removal leaves `s` unchanged.
proof fn lemma_remove_entry_absent<F>(s: Seq<(u32, F)>, id: u32)
    requires
        forall|j: int| 0 <= j < s.len() ==> s[j].0 != id,
    ensures
        remove_entry(s, id) == s,
    decreases s.len(),
{
    if s.len() == 0 {
        assert(remove_entry(s, id) =~= s);
    } else {
        lemma_remove_entry_absent(s.drop_first(), id);
        assert(seq![s[0]] + s.drop_first() =~= s);
    }
}

/// Every sequence number a well-formed registry stores is strictly below
/// the next number a registration would return: a fresh registration can
/// never collide with a live hook, however many removals intervened.
pub proof fn lemma_next_id_fresh<F>(c: HookContainer<F>)
    requires
        c.wf(),
    ensures
        forall|i: int|
            0 <= i < c.entries().len() ==> (#[trigger] c.entries()[i].0) < c.seq_counter() + 1,
{
}

/// In a well-formed registry no two entries share a sequence number, so an
/// enumeration of the entries reaches every live hook exactly once.
pub proof fn lemma_entries_distinct<F>(c: HookContainer<F>)
    requires
        c.wf(),
    ensures
        forall|i: int, j: int|
            0 <= i < c.entries().len() && 0 <= j < c.entries().len() && i != j
                ==> (#[trigger] c.entries()[i]).0 != (#[trigger] c.entries()[j]).0,
{
}

/// Two successive registrations never return the same sequence number,
/// whatever ran in between: a registration returns one more than the
/// counter it found and raises the counter to that number, removal keeps
/// the counter, so the registry seen by the second registration carries a
/// counter at least as large as the first number returned.
pub proof fn lemma_sequence_monotonic<F>(
    before_first: HookContainer<F>,
    before_second: HookContainer<F>,
)
    requires
        before_first.seq_counter() < MAX_SEQUENCE,
        before_second.seq_counter() >= before_first.seq_counter() + 1,
    ensures
        before_second.seq_counter() + 1 > before_first.seq_counter() + 1,
{
}

} // verus!
