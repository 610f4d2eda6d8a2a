//! The call-interception manager.
//!
//! Given the catalog of intercepted entry-point names and the export table
//! of one loaded driver module, the manager resolves each catalog name
//! present among the exports, synthesizes its trampoline, and owns the
//! resulting table: original address, trampoline, and the replacement
//! address to publish in the module's symbol table. Tearing the table down
//! yields the original addresses to restore, and is safe even when some
//! trampolines were never created.
//!
//! Module discovery and the actual symbol-table patching are the loader
//! collaborator's concern; this component only decides, for a given module
//! handle's exports, what replaces what.

use vstd::prelude::*;

use crate::trampoline::{spec_stub, synthesize, Arch, Trampoline};

verus! {

/// One exported symbol of a loaded module: its name and its real address.
pub struct Export {
    pub name: Vec<u8>,
    pub address: usize,
}

/// One planned interception: the catalog index of the function (which is
/// also its call identity for reporting), its name, and the real address
/// the module exports for it.
pub struct PlanEntry {
    pub idx: usize,
    pub name: Vec<u8>,
    pub original: usize,
}

/// One installed interception. `trampoline` is `None` exactly when stub
/// synthesis failed for this entry point; the symbol is then left
/// un-intercepted and the replacement address is the real one.
pub struct Interception {
    pub name: Vec<u8>,
    pub original: usize,
    pub trampoline: Option<Trampoline>,
}

/// The interception table of one loaded driver module.
pub struct InterceptedModule {
    pub entries: Vec<Interception>,
}

/// The address of the first export named `name` from position `j` on.
pub open spec fn spec_lookup(exports: Seq<Export>, name: Seq<u8>, j: int) -> Option<usize>
    decreases exports.len() - j,
{
    if j < 0 || j >= exports.len() {
        Option::None
    } else if exports[j].name@ == name {
        Option::Some(exports[j].address)
    } else {
        spec_lookup(exports, name, j + 1)
    }
}

/// The interception plan: one entry per catalog name from position `i` on
/// that the module exports, carrying its catalog index, its name, and the
/// exported address.
pub open spec fn spec_plan(catalog: Seq<Vec<u8>>, exports: Seq<Export>, i: int) -> Seq<
    (int, Seq<u8>, usize),
>
    decreases catalog.len() - i,
{
    if i < 0 || i >= catalog.len() {
        Seq::empty()
    } else {
        (match spec_lookup(exports, catalog[i]@, 0) {
            Option::Some(addr) => seq![(i, catalog[i]@, addr)],
            Option::None => Seq::empty(),
        }) + spec_plan(catalog, exports, i + 1)
    }
}

/// The plan a vector of entries represents.
pub open spec fn plan_view(entries: Seq<PlanEntry>) -> Seq<(int, Seq<u8>, usize)> {
    Seq::new(entries.len(), |k: int| (entries[k].idx as int, entries[k].name@, entries[k].original))
}

/// Resolves the first export named `name`.
fn lookup(exports: &Vec<Export>, name: &Vec<u8>) -> (r: Option<usize>)
    ensures
        r == spec_lookup(exports@, name@, 0),
{
    let mut j: usize = 0;
    while j < exports.len()
        invariant
            j <= exports@.len(),
            spec_lookup(exports@, name@, 0) == spec_lookup(exports@, name@, j as int),
        decreases exports@.len() - j,
    {
        if crate::format::bytes_eq(&exports[j].name, name) {
            return Some(exports[j].address);
        }
        j = j + 1;
    }
    None
}

/// Copies the bytes of `s`.
fn clone_bytes(s: &Vec<u8>) -> (r: Vec<u8>)
    ensures
        r@ == s@,
{
    let mut r: Vec<u8> = Vec::new();
    let mut i: usize = 0;
    while i < s.len()
        invariant
            i <= s@.len(),
            r@ == s@.subrange(0, i as int),
        decreases s@.len() - i,
    {
        r.push(s[i]);
        i = i + 1;
        assert(r@ =~= s@.subrange(0, i as int));
    }
    assert(r@ =~= s@);
    r
}

/// Plans the interception of one module: for every catalog name the module
/// exports, one entry with the catalog index and the real address, in
/// catalog order.
pub fn plan_install(catalog: &Vec<Vec<u8>>, exports: &Vec<Export>) -> (r: Vec<PlanEntry>)
    ensures
        plan_view(r@) == spec_plan(catalog@, exports@, 0),
{
    let mut r: Vec<PlanEntry> = Vec::new();
    let mut i: usize = 0;
    while i < catalog.len()
        invariant
            i <= catalog@.len(),
            plan_view(r@) + spec_plan(catalog@, exports@, i as int) == spec_plan(
                catalog@,
                exports@,
                0,
            ),
        decreases catalog@.len() - i,
    {
        let ghost pre = plan_view(r@);
        match lookup(exports, &catalog[i]) {
            Option::Some(addr) => {
                let entry = PlanEntry { idx: i, name: clone_bytes(&catalog[i]), original: addr };
                r.push(entry);
                proof {
                    assert(plan_view(r@) =~= pre + seq![
                        (i as int, catalog@[i as int]@, addr),
                    ]);
                }
            },
            Option::None => {},
        }
        i = i + 1;
        proof {
            assert(plan_view(r@) + spec_plan(catalog@, exports@, i as int) =~= pre
                + spec_plan(catalog@, exports@, i - 1));
        }
    }
    proof {
        assert(plan_view(r@) =~= plan_view(r@) + spec_plan(catalog@, exports@, i as int));
    }
    r
}

/// Whether every address an interception of this plan embeds fits the
/// 32-bit layout's immediates.
pub open spec fn plan_fits_x86(plan: Seq<PlanEntry>, report_fn: usize, guid: usize) -> bool {
    &&& report_fn <= u32::MAX
    &&& guid <= u32::MAX
    &&& forall|k: int|
        0 <= k < plan.len() ==> plan[k].original <= u32::MAX && plan[k].idx <= u32::MAX
}

/// Whether an installed table matches a plan: same names and original addresses
/// in the same order, and every trampoline that was created holds exactly
/// the stub bytes for its entry's identity, bound to the shared reporting
/// callback.
pub open spec fn installed_from(
    entries: Seq<Interception>,
    plan: Seq<PlanEntry>,
    arch: Arch,
    report_fn: usize,
    guid: usize,
) -> bool {
    &&& entries.len() == plan.len()
    &&& forall|k: int|
        0 <= k < plan.len() ==> (#[trigger] entries[k]).name@ == plan[k].name@ && entries[k].original
            == plan[k].original
    &&& forall|k: int|
        0 <= k < plan.len() ==> match (#[trigger] entries[k]).trampoline {
            Option::Some(t) => t.code@ == spec_stub(
                arch,
                plan[k].original as u64,
                report_fn as u64,
                guid as u64,
                plan[k].idx as u64,
            ),
            Option::None => true,
        }
}

/// Installs a planned interception table: synthesizes one trampoline per
/// entry, bound to the shared reporting callback and the entry's identity.
/// An entry whose executable allocation fails keeps `None` and falls back
/// to the real address rather than destabilizing the rest of the module.
pub fn publish(
    plan: Vec<PlanEntry>,
    arch: Arch,
    report_fn: usize,
    guid: usize,
) -> (r: InterceptedModule)
    requires
        arch is X86 ==> plan_fits_x86(plan@, report_fn, guid),
    ensures
        installed_from(r.entries@, plan@, arch, report_fn, guid),
{
    let ghost plan_snapshot = plan@;
    let mut entries: Vec<Interception> = Vec::new();
    let mut plan = plan;
    let mut i: usize = 0;
    let n: usize = plan.len();
    while i < n
        invariant
            plan@ == plan_snapshot,
            n == plan@.len(),
            i <= n,
            arch is X86 ==> plan_fits_x86(plan@, report_fn, guid),
            entries@.len() == i,
            forall|k: int|
                0 <= k < i ==> (#[trigger] entries@[k]).name@ == plan@[k].name@ && entries@[k].original
                    == plan@[k].original,
            forall|k: int|
                0 <= k < i ==> match (#[trigger] entries@[k]).trampoline {
                    Option::Some(t) => t.code@ == spec_stub(
                        arch,
                        plan@[k].original as u64,
                        report_fn as u64,
                        guid as u64,
                        plan@[k].idx as u64,
                    ),
                    Option::None => true,
                },
        decreases n - i,
    {
        let original: usize = plan[i].original;
        let idx: usize = plan[i].idx;
        let name: Vec<u8> = clone_bytes(&plan[i].name);
        let trampoline: Option<Trampoline> = match synthesize(arch, original, report_fn, guid, idx) {
            Ok(t) => Some(t),
            Err(_) => None,
        };
        entries.push(Interception { name, original, trampoline });
        i = i + 1;
    }
    InterceptedModule { entries }
}

impl Interception {
    /// The address that replaces this symbol: the trampoline's entry when
    /// one was created, and the real address — no interception — when not.
    pub fn replacement(&self) -> (r: usize)
        ensures
            r == (match self.trampoline {
                Option::Some(t) => t.entry,
                Option::None => self.original,
            }),
    {
        match &self.trampoline {
            Option::Some(t) => t.entry,
            Option::None => self.original,
        }
    }
}

impl InterceptedModule {
    /// The table that undoes this installation: every intercepted name with
    /// its original address, in table order. Restoring these is safe even
    /// for entries whose trampoline was never created — their replacement
    /// already was the original.
    pub fn uninstall(&self) -> (r: Vec<Export>)
        ensures
            r@.len() == self.entries@.len(),
            forall|k: int|
                0 <= k < r@.len() ==> (#[trigger] r@[k]).name@ == self.entries@[k].name@
                    && r@[k].address == self.entries@[k].original,
    {
        let mut r: Vec<Export> = Vec::new();
        let mut i: usize = 0;
        while i < self.entries.len()
            invariant
                i <= self.entries@.len(),
                r@.len() == i,
                forall|k: int|
                    0 <= k < i ==> (#[trigger] r@[k]).name@ == self.entries@[k].name@
                        && r@[k].address == self.entries@[k].original,
            decreases self.entries@.len() - i,
        {
            let e = Export {
                name: clone_bytes(&self.entries[i].name),
                address: self.entries[i].original,
            };
            r.push(e);
            i = i + 1;
        }
        r
    }
}

} // verus!
