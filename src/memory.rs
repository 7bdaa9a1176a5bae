//! Imported memory and the single mapped view derived from it.
use std::ops::Range;
use std::sync::Arc;
use vstd::prelude::*;

use crate::driver::{CudaContext, CudaEvent, CudaStream, DriverCall, DriverError, OsFile, NULL_STREAM};

verus! {

/// Memory imported from an OS resource into a context.
///
/// Created by [`CudaContext::import_external_memory`]. It is consumed either by
/// mapping it ([`ExternalMemory::map_range`], [`ExternalMemory::map_all`]),
/// which moves it into the view, or by [`ExternalMemory::close`].
#[derive(Debug)]
pub struct ExternalMemory {
    external_memory: u64,
    size: u64,
    ctx: Arc<CudaContext>,
    file: OsFile,
}

/// The calls that import `size` bytes from `file` into context `ctx`, in order.
pub open spec fn import_calls_of(ctx: u64, file: OsFile, size: u64) -> Seq<DriverCall> {
    seq![
        DriverCall::BindToThread { ctx },
        if file.kind.transfers_ownership() {
            DriverCall::ImportOpaqueFd { fd: file.raw, size }
        } else {
            DriverCall::ImportOpaqueWin32 { handle: file.raw, size }
        },
    ]
}

impl CudaContext {
    /// The driver calls that import `size` bytes from `file`: bind this
    /// context to the thread, then the import primitive for the kind of handle.
    pub fn import_calls(&self, file: &OsFile, size: u64) -> (r: Vec<DriverCall>)
        ensures
            r@ == import_calls_of(self.handle, *file, size),
    {
        let import = if file.kind.transfers_ownership() {
            DriverCall::ImportOpaqueFd { fd: file.raw, size }
        } else {
            DriverCall::ImportOpaqueWin32 { handle: file.raw, size }
        };
        let r = vec![DriverCall::BindToThread { ctx: self.handle }, import];
        r
    }

    /// Import `size` bytes of memory shared through `file`.
    ///
    /// `bound` is the outcome of binding this context to the thread, and
    /// `imported` that of the import primitive, which only runs once binding
    /// succeeded (see [`CudaContext::import_calls`]). The first failure is
    /// returned and nothing is built; otherwise the memory owns the handle
    /// the import returned, and `file`.
    ///
    /// `size` must be the true size of the shared memory: it cannot be checked.
    pub fn import_external_memory(
        self: &Arc<Self>,
        file: OsFile,
        size: u64,
        bound: Result<(), DriverError>,
        imported: Result<u64, DriverError>,
    ) -> (r: Result<ExternalMemory, DriverError>)
        ensures
            match (bound, imported) {
                (Err(e), _) => r == Err::<ExternalMemory, DriverError>(e),
                (Ok(_), Err(e)) => r == Err::<ExternalMemory, DriverError>(e),
                (Ok(_), Ok(h)) => r matches Ok(m) && m.handle() == h && m.size() == size
                    && m.context() == **self && m.file() == file,
            },
    {
        match bound {
            Err(e) => Err(e),
            Ok(()) => match imported {
                Err(e) => Err(e),
                Ok(external_memory) => Ok(
                    ExternalMemory { external_memory, size, ctx: self.clone(), file },
                ),
            },
        }
    }
}

impl ExternalMemory {
    pub closed spec fn handle(&self) -> u64 {
        self.external_memory
    }

    pub closed spec fn spec_size(&self) -> u64 {
        self.size
    }

    pub closed spec fn context(&self) -> CudaContext {
        *self.ctx
    }

    pub closed spec fn file(&self) -> OsFile {
        self.file
    }

    /// Size in bytes, as given at import.
    #[verifier::when_used_as_spec(spec_size)]
    pub fn size(&self) -> (r: u64)
        ensures
            r == self.size(),
    {
        self.size
    }

    /// The calls that tear this memory down, in order: bind the context,
    /// destroy the imported memory, and close the OS resource unless the
    /// import made the driver its owner.
    pub open spec fn teardown(&self) -> Seq<DriverCall> {
        seq![
            DriverCall::BindToThread { ctx: self.context().handle },
            DriverCall::DestroyExternalMemory { memory: self.handle() },
        ] + if self.file().kind.transfers_ownership() {
            Seq::<DriverCall>::empty()
        } else {
            seq![DriverCall::CloseFile { raw: self.file().raw }]
        }
    }

    /// Gives up this memory; returns the calls to run, in order, recording
    /// rather than returning their failures (every call runs).
    pub fn close(self) -> (r: Vec<DriverCall>)
        ensures
            r@ == self.teardown(),
    {
        let mut r = vec![
            DriverCall::BindToThread { ctx: self.ctx.handle },
            DriverCall::DestroyExternalMemory { memory: self.external_memory },
        ];
        if !self.file.kind.transfers_ownership() {
            r.push(DriverCall::CloseFile { raw: self.file.raw });
        }
        assert(r@ =~= self.teardown());
        r
    }
}

/// Number of bytes in the half-open range `start..end` (none when reversed).
pub open spec fn range_len(start: usize, end: usize) -> nat {
    if start <= end {
        (end - start) as nat
    } else {
        0
    }
}

/// Why a mapping was not made. The memory it was asked of is gone: `cleanup`
/// holds the calls that release what the attempt held, the memory included.
#[derive(Debug)]
pub struct MapFailure {
    pub error: DriverError,
    pub cleanup: Vec<DriverCall>,
}

impl ExternalMemory {
    /// Whether `range` lies within this memory, as mapping requires.
    pub fn fits(&self, range: &Range<usize>) -> (r: bool)
        ensures
            r == (range.start <= self.size() && range.end <= self.size()),
    {
        range.start as u64 <= self.size && range.end as u64 <= self.size
    }

    /// The calls that map `start..end` of this memory, in order: the mapping
    /// primitive, then a new completion marker in the owning context.
    pub open spec fn map_calls_of(&self, start: usize, end: usize) -> Seq<DriverCall> {
        seq![
            DriverCall::GetMappedBuffer {
                memory: self.handle(),
                offset: start as u64,
                len: range_len(start, end) as u64,
            },
            DriverCall::NewEvent { ctx: self.context().handle },
        ]
    }

    pub fn map_calls(&self, range: &Range<usize>) -> (r: Vec<DriverCall>)
        ensures
            r@ == self.map_calls_of(range.start, range.end),
    {
        let len: usize = if range.start <= range.end {
            range.end - range.start
        } else {
            0
        };
        let r = vec![
            DriverCall::GetMappedBuffer {
                memory: self.external_memory,
                offset: range.start as u64,
                len: len as u64,
            },
            DriverCall::NewEvent { ctx: self.ctx.handle },
        ];
        r
    }

    /// What mapping `start..end` of `self` gives, when the mapping primitive
    /// answered `mapped` and the marker creation (run only after a mapping)
    /// answered `event`.
    pub open spec fn map_outcome(
        self,
        start: usize,
        end: usize,
        mapped: Result<u64, DriverError>,
        event: Result<u64, DriverError>,
        r: Result<MappedBuffer, MapFailure>,
    ) -> bool {
        match (mapped, event) {
            (Ok(p), Ok(ev)) => r matches Ok(b) && b.address() == p && b.len() == range_len(
                start,
                end,
            ) && b.memory() == self && b.event() == ev && b.queue().handle == NULL_STREAM,
            (Err(e), _) => r matches Err(f) && f.error == e && f.cleanup@ == self.teardown(),
            (Ok(p), Err(e)) => r matches Err(f) && f.error == e && f.cleanup@ == seq![
                DriverCall::BindToThread { ctx: self.context().handle },
                DriverCall::MemoryFree { ptr: p },
            ] + self.teardown(),
        }
    }

    /// Map `range` of this memory into device address space.
    ///
    /// The memory moves into the view, so at most one view is ever derived
    /// from it. `mapped` and `event` are the outcomes of the two calls of
    /// [`ExternalMemory::map_calls`]; the second runs only after the first
    /// succeeded. On failure nothing is returned but what must be released.
    pub fn map_range(
        self,
        range: Range<usize>,
        mapped: Result<u64, DriverError>,
        event: Result<u64, DriverError>,
    ) -> (r: Result<MappedBuffer, MapFailure>)
        requires
            range.start <= self.size(),
            range.end <= self.size(),
        ensures
            self.map_outcome(range.start, range.end, mapped, event, r),
    {
        let len: usize = if range.start <= range.end {
            range.end - range.start
        } else {
            0
        };
        match mapped {
            Err(error) => Err(MapFailure { error, cleanup: self.close() }),
            Ok(device_ptr) => match event {
                Err(error) => {
                    let ctx = self.ctx.handle;
                    let mut cleanup = vec![
                        DriverCall::BindToThread { ctx },
                        DriverCall::MemoryFree { ptr: device_ptr },
                    ];
                    let mut rest = self.close();
                    cleanup.append(&mut rest);
                    Err(MapFailure { error, cleanup })
                },
                Ok(handle) => {
                    let stream = self.ctx.default_stream();
                    Ok(
                        MappedBuffer {
                            device_ptr,
                            len,
                            external_memory: self,
                            event: CudaEvent { handle },
                            stream,
                        },
                    )
                },
            },
        }
    }

    /// Map the whole of this memory: [`ExternalMemory::map_range`] on `0..size`.
    pub fn map_all(self, mapped: Result<u64, DriverError>, event: Result<u64, DriverError>) -> (r:
        Result<MappedBuffer, MapFailure>)
        requires
            self.size() <= usize::MAX,
        ensures
            self.map_outcome(0, self.size() as usize, mapped, event, r),
    {
        let size = self.size as usize;
        self.map_range(0..size, mapped, event)
    }
}

/// A deferred obligation handed out with a device address: once the access
/// has been queued, the completion marker must be recorded on the queue used.
#[derive(Debug)]
pub struct SyncOnDrop {
    pub event: u64,
    pub stream: u64,
}

impl SyncOnDrop {
    /// The call that discharges the obligation.
    pub fn record_call(self) -> (r: DriverCall)
        ensures
            r == (DriverCall::RecordEvent { event: self.event, stream: self.stream }),
    {
        DriverCall::RecordEvent { event: self.event, stream: self.stream }
    }
}

/// A read-only view of imported memory in device address space.
///
/// Owns the memory it was derived from. Freed by [`MappedBuffer::close`],
/// which first makes the view's queue wait for the last recorded access.
#[derive(Debug)]
pub struct MappedBuffer {
    device_ptr: u64,
    len: usize,
    external_memory: ExternalMemory,
    event: CudaEvent,
    stream: CudaStream,
}

impl MappedBuffer {
    /// A view never reaches past the memory it was derived from.
    #[verifier::type_invariant]
    closed spec fn within_memory(self) -> bool {
        self.len <= self.external_memory.size
    }

    pub closed spec fn address(&self) -> u64 {
        self.device_ptr
    }

    pub closed spec fn spec_len(&self) -> usize {
        self.len
    }

    pub closed spec fn memory(&self) -> ExternalMemory {
        self.external_memory
    }

    pub closed spec fn event(&self) -> u64 {
        self.event.handle
    }

    pub closed spec fn queue(&self) -> CudaStream {
        self.stream
    }

    /// Length of the view in bytes.
    #[verifier::when_used_as_spec(spec_len)]
    pub fn len(&self) -> (r: usize)
        ensures
            r == self.len(),
            r <= self.memory().size(),
    {
        proof {
            use_type_invariant(self);
        }
        self.len
    }

    /// The queue the view's completion marker is ordered against.
    pub fn stream(&self) -> (r: &CudaStream)
        ensures
            *r == self.queue(),
    {
        &self.stream
    }

    /// The device address of the view, for a read queued on `stream`.
    ///
    /// Only reads are offered, so no wait is needed before the access; the
    /// returned obligation records the view's marker on `stream` afterwards,
    /// which teardown then waits for.
    pub fn device_ptr(&self, stream: &CudaStream) -> (r: (u64, SyncOnDrop))
        ensures
            r.0 == self.address(),
            r.1.event == self.event(),
            r.1.stream == stream.handle,
    {
        (self.device_ptr, SyncOnDrop { event: self.event.handle, stream: stream.handle })
    }

    /// The calls that tear the view down, in order: bind the context, make
    /// the view's queue wait for its completion marker, free the mapping,
    /// tear down the memory it was derived from, destroy the marker.
    pub open spec fn teardown(&self) -> Seq<DriverCall> {
        seq![
            DriverCall::BindToThread { ctx: self.memory().context().handle },
            DriverCall::StreamWait { stream: self.queue().handle, event: self.event() },
            DriverCall::MemoryFree { ptr: self.address() },
        ] + self.memory().teardown() + seq![DriverCall::DestroyEvent { event: self.event() }]
    }

    /// Gives up the view; returns the calls to run, in order, recording
    /// rather than returning their failures (every call runs).
    pub fn close(self) -> (r: Vec<DriverCall>)
        ensures
            r@ == self.teardown(),
    {
        let event = self.event.handle;
        let mut r = vec![
            DriverCall::BindToThread { ctx: self.external_memory.ctx.handle },
            DriverCall::StreamWait { stream: self.stream.handle, event },
            DriverCall::MemoryFree { ptr: self.device_ptr },
        ];
        let mut rest = self.external_memory.close();
        r.append(&mut rest);
        r.push(DriverCall::DestroyEvent { event });
        r
    }
}

} // verus!
