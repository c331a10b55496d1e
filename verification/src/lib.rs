//! A bounded, byte-addressable shared-memory region that two independently
//! compiled processes attach to under a well-known name. This crate holds the
//! verified lifecycle and accessor core: attachment with an open-or-nothing
//! policy, a first-class "mapping absent" state that every operation
//! tolerates, bounds-checked plans for each byte access, the presence query,
//! and single-shot release. The raw volatile loads and stores themselves are
//! carried out by a thin unverified layer around this crate, strictly at the
//! offsets the plans here admit.

mod os_shmem;
mod region;

pub use os_shmem::shmem_owner;
pub use os_shmem::shmem_size;
pub use region::REGION_CAPACITY;
pub use region::ReadAction;
pub use region::SharedMemorySystem;
pub use region::WriteAction;
pub use region::admit_mapping;
pub use region::attach;
pub use region::attach_at;
pub use region::create_or_open;
pub use region::is_present;
pub use region::lemma_empty_handle_degrades;
pub use region::lemma_present_out_of_bounds_faults;
pub use region::lemma_write_read_same_cell;
pub use region::offset_in_bounds;
pub use region::read_action;
pub use region::region_flink;
pub use region::region_link_name;
pub use region::release;
pub use region::spec_handle_admissible;
pub use region::spec_in_bounds;
pub use region::spec_read_action;
pub use region::spec_write_action;
pub use region::write_action;
