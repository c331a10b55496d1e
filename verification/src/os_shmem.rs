//! The trusted boundary to the operating system's shared memory, reached
//! through the `shared_memory` crate. Verus believes the declarations in this
//! module without proof; everything else in the crate is proved against them.

use shared_memory::Shmem;
use shared_memory::ShmemConf;
use vstd::prelude::*;

verus! {

/// `shared_memory::Shmem` is one process's attachment to a named OS
/// shared-memory mapping. The value is opaque here: the crate only carries it
/// around and hands it to the unverified layer that performs raw accesses.
#[verifier::external_type_specification]
#[verifier::external_body]
pub struct ExShmem(Shmem);

/// The total byte size of the attachment's mapping: the value `Shmem::len`
/// returns, a function of the attachment alone.
pub uninterp spec fn shmem_size(shmem: Shmem) -> usize;

/// The attachment's owner flag, as `Shmem::set_owner` records it: while it is
/// set, tearing the attachment down deletes the OS-level mapping and its file
/// link; while it is clear, teardown only undoes this process's bookkeeping.
pub uninterp spec fn shmem_owner(shmem: Shmem) -> bool;

/// Relies on `ShmemConf::open`: attaches to the existing mapping whose OS id
/// is recorded in the file link at `flink_path`; it never creates a mapping.
/// Whether it succeeds depends on the environment (on whether a creator has
/// published that link), so nothing is promised of the outcome; the verified
/// `attach` handles every outcome.
#[verifier::external_body]
pub(crate) fn open_region(flink_path: &str) -> (shmem: Option<Shmem>) {
    ShmemConf::new().flink(flink_path).open().ok()
}

/// Relies on `Shmem::len`: reports the total byte size of the mapping, as the
/// OS reported it when the mapping was opened or created.
pub assume_specification[ Shmem::len ](shmem: &Shmem) -> (len: usize)
    ensures
        len == shmem_size(*shmem),
;

/// Relies on `Shmem::set_owner`: records whether dropping this attachment
/// deletes the OS-level mapping and its file link, and returns the previous
/// choice. It touches only the owner flag, so the mapping's size is
/// unchanged. Passing `false` makes the attachment non-owning, so its
/// teardown leaves the region alive for every other attached process.
pub assume_specification[ Shmem::set_owner ](shmem: &mut Shmem, is_owner: bool) -> (prev: bool)
    ensures
        shmem_owner(*final(shmem)) == is_owner,
        shmem_size(*final(shmem)) == shmem_size(*old(shmem)),
        prev == shmem_owner(*old(shmem)),
;

} // verus!
