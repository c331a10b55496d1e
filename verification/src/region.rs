//! The verified core of the shared-region layer: the fixed capacity and the
//! fixed file-link name that cooperating processes agree on, attachment to an
//! existing region, the presence query, release, and the bounds-checked plans
//! for every byte access.
//!
//! The region's bytes live in an OS mapping that another process may mutate
//! at any time, so the byte store itself stays outside the verified boundary:
//! this module decides, with proof, *which* access is performed (or refused),
//! and the thin unverified layer above carries the decided access out with a
//! volatile load or store.

use crate::os_shmem::open_region;
use crate::os_shmem::shmem_owner;
use crate::os_shmem::shmem_size;
use shared_memory::Shmem;
use vstd::prelude::*;
use vstd::string::StringExecFns;

verus! {

/// Fixed byte capacity of the shared region: 65 KiB plus 1 KiB. This is a
/// wire-level constant; every implementation that interoperates over the same
/// named region must use exactly this value.
pub const REGION_CAPACITY: usize = 0x10400;

/// True exactly when `offset` addresses a byte inside the region.
pub open spec fn spec_in_bounds(offset: u32) -> bool {
    (offset as int) < (REGION_CAPACITY as int)
}

/// Runtime form of the bounds test.
pub fn offset_in_bounds(offset: u32) -> (ok: bool)
    ensures
        ok == spec_in_bounds(offset),
{
    (offset as usize) < REGION_CAPACITY
}

/// The fixed name of the file link, placed under the platform's temporary
/// directory, through which cooperating processes find the region. The name
/// is a protocol constant and must stay byte-identical across implementations.
pub fn region_link_name() -> (name: &'static str)
    ensures
        name@ == "msp430_shmem_id"@,
{
    "msp430_shmem_id"
}

/// Joins the temporary directory handed in by the caller with the fixed link
/// name. The caller supplies the directory because reading the environment is
/// I/O and stays outside the verified library.
pub fn region_flink(tmp_dir: &str) -> (flink: String)
    ensures
        flink@ == tmp_dir@ + "/"@ + "msp430_shmem_id"@,
{
    let mut flink = String::from_str(tmp_dir);
    flink.append("/");
    flink.append(region_link_name());
    flink
}

/// One process's attachment to the shared region. It keeps the OS mapping
/// alive until the handle is released, and it is marked non-owning at
/// construction, so releasing it never destroys the region for the other
/// attached processes. The base address stays valid for the whole lifetime of
/// the handle, and every access the planner admits lies inside the mapping.
pub struct SharedMemorySystem {
    shmem: Shmem,
}

impl SharedMemorySystem {
    /// The byte size of the handle's mapping, for specifications.
    pub closed spec fn spec_mapped_size(self) -> usize {
        shmem_size(self.shmem)
    }

    /// Whether tearing this handle down would destroy the OS-level mapping,
    /// for specifications. Every handle the library builds renounces this.
    pub closed spec fn spec_owns_region(self) -> bool {
        shmem_owner(self.shmem)
    }

    /// Wraps a freshly attached mapping, first renouncing OS-level ownership:
    /// tearing this handle down must only undo this process's bookkeeping,
    /// never delete the named region that other processes still use. Every
    /// present handle is built here, so every present handle is non-owning.
    fn new(shmem: Shmem) -> (sys: SharedMemorySystem)
        ensures
            !sys.spec_owns_region(),
            sys.spec_mapped_size() == shmem_size(shmem),
    {
        let mut shmem = shmem;
        shmem.set_owner(false);
        SharedMemorySystem { shmem }
    }

    /// The underlying attachment, for the unverified layer that performs the
    /// volatile byte accesses at the offsets this module has bounds-checked.
    pub fn shmem_ref(&self) -> &Shmem {
        &self.shmem
    }

    /// Plans a read against a present handle: a load for an in-bounds offset,
    /// a fault otherwise. An out-of-bounds offset on a present handle is a
    /// caller logic defect and is fatal, never clamped or given a sentinel.
    pub fn read_plan(&self, offset: u32) -> (action: ReadAction)
        ensures
            action == spec_read_action(true, offset),
    {
        if offset_in_bounds(offset) {
            ReadAction::Load { offset: offset as usize }
        } else {
            ReadAction::Fault { offset }
        }
    }

    /// Plans a write against a present handle, under the same bounds policy
    /// as `read_plan`.
    pub fn write_plan(&self, offset: u32, value: u8) -> (action: WriteAction)
        ensures
            action == spec_write_action(true, offset, value),
    {
        if offset_in_bounds(offset) {
            WriteAction::Store { offset: offset as usize, value }
        } else {
            WriteAction::Fault { offset }
        }
    }
}

/// What a read of the region must do, decided from the handle's presence and
/// the requested offset.
#[derive(Clone, Copy, PartialEq, Eq, Structural, Debug)]
pub enum ReadAction {
    /// The handle is empty: yield 0 without touching any memory.
    Zero,
    /// Load the byte at `offset`, which lies inside the region.
    Load { offset: usize },
    /// The offset is outside the region: fatal, abort the process.
    Fault { offset: u32 },
}

/// What a write to the region must do, decided the same way.
#[derive(Clone, Copy, PartialEq, Eq, Structural, Debug)]
pub enum WriteAction {
    /// The handle is empty: drop the write silently.
    Skip,
    /// Store `value` at `offset`, which lies inside the region.
    Store { offset: usize, value: u8 },
    /// The offset is outside the region: fatal, abort the process.
    Fault { offset: u32 },
}

/// The read policy in full: an empty handle reads as 0 at every offset; a
/// present handle loads in-bounds offsets and faults on the rest.
pub open spec fn spec_read_action(present: bool, offset: u32) -> ReadAction {
    if !present {
        ReadAction::Zero
    } else if spec_in_bounds(offset) {
        ReadAction::Load { offset: offset as usize }
    } else {
        ReadAction::Fault { offset }
    }
}

/// The write policy in full: an empty handle drops every write; a present
/// handle stores to in-bounds offsets and faults on the rest.
pub open spec fn spec_write_action(present: bool, offset: u32, value: u8) -> WriteAction {
    if !present {
        WriteAction::Skip
    } else if spec_in_bounds(offset) {
        WriteAction::Store { offset: offset as usize, value }
    } else {
        WriteAction::Fault { offset }
    }
}

/// Decides the read for an optional handle: exactly the policy of
/// `spec_read_action`, with presence taken from the handle.
pub fn read_action(mem: &Option<SharedMemorySystem>, offset: u32) -> (action: ReadAction)
    ensures
        action == spec_read_action(mem is Some, offset),
{
    match mem {
        None => ReadAction::Zero,
        Some(sys) => sys.read_plan(offset),
    }
}

/// Decides the write for an optional handle: exactly the policy of
/// `spec_write_action`, with presence taken from the handle.
pub fn write_action(
    mem: &Option<SharedMemorySystem>,
    offset: u32,
    value: u8,
) -> (action: WriteAction)
    ensures
        action == spec_write_action(mem is Some, offset, value),
{
    match mem {
        None => WriteAction::Skip,
        Some(sys) => sys.write_plan(offset, value),
    }
}

/// Reports whether the optional handle holds a real attachment. It inspects
/// only the presence tag, never the mapped memory, and always succeeds.
pub fn is_present(mem: &Option<SharedMemorySystem>) -> (present: bool)
    ensures
        present == (mem is Some),
{
    match mem {
        Some(_) => true,
        None => false,
    }
}

/// Releases the optional handle: afterwards the slot is empty, and the
/// attachment it may have held is torn down. Because the handle was marked
/// non-owning at construction, the teardown only undoes this process's
/// bookkeeping and leaves the OS-level region alive for other attachers.
pub fn release(mem: &mut Option<SharedMemorySystem>)
    ensures
        *final(mem) is None,
{
    *mem = None;
}

/// What the library promises of every handle it hands out: a present handle
/// is non-owning (its teardown never destroys the region for other attached
/// processes) and wraps a mapping that holds the full region, so every
/// in-bounds offset lies inside the OS mapping.
pub open spec fn spec_handle_admissible(mem: Option<SharedMemorySystem>) -> bool {
    match mem {
        None => true,
        Some(sys) => !sys.spec_owns_region() && sys.spec_mapped_size() >= REGION_CAPACITY,
    }
}

/// Admits a freshly attached mapping whose reported size is `mapped_len`:
/// the handle becomes present exactly when the mapping is at least
/// `REGION_CAPACITY` bytes, so that every in-bounds offset lies inside the
/// OS mapping; an undersized region is refused rather than silently attached.
/// A present handle is non-owning and keeps the mapping it was given.
pub fn admit_mapping(shmem: Shmem, mapped_len: usize) -> (mem: Option<SharedMemorySystem>)
    ensures
        mem is Some <==> mapped_len >= REGION_CAPACITY,
        mem matches Some(sys) ==> !sys.spec_owns_region() && sys.spec_mapped_size()
            == shmem_size(shmem),
{
    if mapped_len >= REGION_CAPACITY {
        Some(SharedMemorySystem::new(shmem))
    } else {
        None
    }
}

/// Turns the outcome of an open attempt into an optional handle: nothing
/// yields the empty state, and a mapping is admitted exactly when it holds
/// the full region. Absence is a first-class value here, not an error: every
/// accessor tolerates it.
pub fn attach(shmem: Option<Shmem>) -> (mem: Option<SharedMemorySystem>)
    ensures
        shmem is None ==> mem is None,
        shmem matches Some(s) ==> (mem is Some <==> shmem_size(s) >= REGION_CAPACITY),
        spec_handle_admissible(mem),
{
    match shmem {
        None => None,
        Some(s) => {
            let mapped_len = s.len();
            admit_mapping(s, mapped_len)
        },
    }
}

/// Attaches to the region published at `flink_path`. Policy: open-or-nothing.
/// This never creates an OS object; when no creator has published a mapping
/// there (or it cannot be opened, or it is undersized), the result is the
/// empty handle, which reads as 0, drops writes, and reports absent. Whether
/// the open succeeds depends on the environment, so presence cannot be
/// promised; whatever comes back is an admissible handle.
pub fn attach_at(flink_path: &str) -> (mem: Option<SharedMemorySystem>)
    ensures
        spec_handle_admissible(mem),
{
    attach(open_region(flink_path))
}

/// The boundary entry point: attaches to the region under its fixed link
/// name in the given temporary directory, with the open-or-nothing policy of
/// `attach_at`. The creator of the region is expected to be a separate,
/// authoritative process; failure to attach yields the empty handle, and a
/// present result is non-owning and holds the full region.
pub fn create_or_open(tmp_dir: &str) -> (mem: Option<SharedMemorySystem>)
    ensures
        spec_handle_admissible(mem),
{
    let flink = region_flink(tmp_dir);
    attach_at(flink.as_str())
}

/// Law: a write and a read at the same in-bounds offset of a present handle
/// are planned against the same cell of the region, with the written value,
/// so a read after a write observes that value unless a cooperating process
/// stores to the cell in between.
pub proof fn lemma_write_read_same_cell(offset: u32, value: u8)
    requires
        spec_in_bounds(offset),
    ensures
        spec_write_action(true, offset, value) == (WriteAction::Store {
            offset: offset as usize,
            value,
        }),
        spec_read_action(true, offset) == (ReadAction::Load { offset: offset as usize }),
{
}

/// Law: on a present handle, every offset at or beyond the capacity faults,
/// for reads and writes alike; a bounds violation is never clamped and never
/// yields a sentinel value.
pub proof fn lemma_present_out_of_bounds_faults(offset: u32, value: u8)
    requires
        !spec_in_bounds(offset),
    ensures
        spec_read_action(true, offset) == (ReadAction::Fault { offset }),
        spec_write_action(true, offset, value) == (WriteAction::Fault { offset }),
{
}

/// Law: the empty handle degrades gracefully at every offset, in-bounds or
/// not: every read yields 0 and every write is dropped; the bounds policy
/// applies only once a handle is present.
pub proof fn lemma_empty_handle_degrades(offset: u32, value: u8)
    ensures
        spec_read_action(false, offset) == ReadAction::Zero,
        spec_write_action(false, offset, value) == WriteAction::Skip,
{
}

} // verus!
