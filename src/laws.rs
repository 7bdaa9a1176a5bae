//! Properties of the lifecycle that hold for every object.
use vstd::prelude::*;

use crate::driver::{DriverCall, DriverError};
use crate::memory::{range_len, ExternalMemory, MapFailure, MappedBuffer};

verus! {

/// Whether `s` holds `c` at index `k` and nowhere else.
pub open spec fn only_at(s: Seq<DriverCall>, k: int, c: DriverCall) -> bool {
    &&& 0 <= k < s.len()
    &&& s[k] == c
    &&& forall|j: int| 0 <= j < s.len() && j != k ==> s[j] != c
}

/// Whether no call of `s` closes an OS resource.
pub open spec fn closes_nothing(s: Seq<DriverCall>) -> bool {
    forall|j: int| 0 <= j < s.len() ==> !(s[j] is CloseFile)
}

/// Whether the call at index `k` is the only one of `s` that closes an OS resource.
pub open spec fn closes_only_at(s: Seq<DriverCall>, k: int) -> bool {
    forall|j: int| 0 <= j < s.len() && j != k ==> !(s[j] is CloseFile)
}

/// Whether no call of `s` imports anything.
pub open spec fn imports_nothing(s: Seq<DriverCall>) -> bool {
    forall|j: int| 0 <= j < s.len() ==> !(s[j] is ImportOpaqueFd) && !(s[j] is ImportOpaqueWin32)
}

/// Mapping the whole of some memory gives a view as long as the memory,
/// made by asking the driver for the region that starts at offset 0 and
/// spans every byte.
pub proof fn lemma_map_all_covers_memory(
    m: ExternalMemory,
    mapped: Result<u64, DriverError>,
    event: Result<u64, DriverError>,
    r: Result<MappedBuffer, MapFailure>,
)
    requires
        m.size() <= usize::MAX,
        m.map_outcome(0, m.size() as usize, mapped, event, r),
    ensures
        m.map_calls_of(0, m.size() as usize)[0] == (DriverCall::GetMappedBuffer {
            memory: m.handle(),
            offset: 0,
            len: m.size(),
        }),
        r matches Ok(b) ==> b.len() == m.size() && b.memory() == m,
{
    assert(range_len(0, m.size() as usize) == m.size());
}

/// Tearing down memory destroys its imported handle exactly once and never
/// imports again.
pub proof fn lemma_memory_destroyed_once(m: ExternalMemory)
    ensures
        only_at(m.teardown(), 1, DriverCall::DestroyExternalMemory { memory: m.handle() }),
        imports_nothing(m.teardown()),
{
}

/// When the import handed the OS resource to the driver, neither the memory
/// nor a view derived from it ever closes a resource.
pub proof fn lemma_transferred_resource_never_closed(m: ExternalMemory, b: MappedBuffer)
    requires
        m.file().kind.transfers_ownership(),
        b.memory() == m,
    ensures
        closes_nothing(m.teardown()),
        closes_nothing(b.teardown()),
        imports_nothing(b.teardown()),
{
}

/// When the import left the OS resource with its importer, tearing down the
/// memory, or a view derived from it, closes the resource exactly once.
pub proof fn lemma_kept_resource_closed_once(m: ExternalMemory, b: MappedBuffer)
    requires
        !m.file().kind.transfers_ownership(),
        b.memory() == m,
    ensures
        only_at(m.teardown(), 2, DriverCall::CloseFile { raw: m.file().raw }),
        closes_only_at(m.teardown(), 2),
        only_at(b.teardown(), 5, DriverCall::CloseFile { raw: m.file().raw }),
        closes_only_at(b.teardown(), 5),
{
}

/// Tearing down a view always makes its queue wait for its completion
/// marker before the mapping is freed, and frees the mapping exactly once.
pub proof fn lemma_wait_before_free(b: MappedBuffer)
    ensures
        b.teardown()[1] == (DriverCall::StreamWait { stream: b.queue().handle, event: b.event() }),
        only_at(b.teardown(), 2, DriverCall::MemoryFree { ptr: b.address() }),
        forall|j: int| 0 <= j < b.teardown().len() && j != 2 ==> !(b.teardown()[j] is MemoryFree),
{
}

} // verus!
