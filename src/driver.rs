//! The driver primitives this library issues, and the values they exchange.
use vstd::prelude::*;

verus! {

/// Status code of a failed driver primitive.
#[derive(Clone, Copy, Debug, PartialEq, Eq, Structural)]
pub struct DriverError {
    pub code: u32,
}

/// How the OS resource behind imported memory is identified to the driver.
#[derive(Clone, Copy, Debug, PartialEq, Eq, Structural)]
pub enum HandleKind {
    /// A POSIX file descriptor: a successful import hands it over to the driver.
    OpaqueFd,
    /// A Win32 handle: the importer keeps it and must close it itself.
    OpaqueWin32,
}

impl HandleKind {
    pub open spec fn spec_transfers_ownership(self) -> bool {
        self == HandleKind::OpaqueFd
    }

    /// Whether a successful import makes the driver the owner of the resource.
    #[verifier::when_used_as_spec(spec_transfers_ownership)]
    pub fn transfers_ownership(self) -> (r: bool)
        ensures
            r == self.spec_transfers_ownership(),
    {
        match self {
            HandleKind::OpaqueFd => true,
            HandleKind::OpaqueWin32 => false,
        }
    }
}

/// An OS resource (an open file) that memory can be imported from.
///
/// Not `Clone`: whoever holds it is responsible for it.
#[derive(Debug, PartialEq, Eq, Structural)]
pub struct OsFile {
    /// The raw descriptor or handle value.
    pub raw: u64,
    pub kind: HandleKind,
}

/// A work queue of a context.
#[derive(Clone, Copy, Debug, PartialEq, Eq, Structural)]
pub struct CudaStream {
    pub handle: u64,
}

/// A completion marker.
#[derive(Debug, PartialEq, Eq, Structural)]
pub struct CudaEvent {
    pub handle: u64,
}

/// Handle of the default (null) work queue of every context.
pub const NULL_STREAM: u64 = 0;

/// An execution context, shared by every object created in it.
#[derive(Debug, PartialEq, Eq, Structural)]
pub struct CudaContext {
    pub handle: u64,
}

impl CudaContext {
    /// The context's default work queue.
    pub fn default_stream(&self) -> (r: CudaStream)
        ensures
            r.handle == NULL_STREAM,
    {
        CudaStream { handle: NULL_STREAM }
    }
}

/// One request to the driver. Each returns a status and, for the calls that
/// create something, the handle or address of what was created.
#[derive(Clone, Copy, Debug, PartialEq, Eq, Structural)]
pub enum DriverCall {
    /// Make `ctx` current on the calling thread.
    BindToThread { ctx: u64 },
    /// Import `size` bytes shared through file descriptor `fd`; returns the memory handle.
    ImportOpaqueFd { fd: u64, size: u64 },
    /// Import `size` bytes shared through Win32 handle `handle`; returns the memory handle.
    ImportOpaqueWin32 { handle: u64, size: u64 },
    /// Map `len` bytes from `offset` of imported memory; returns the device address.
    GetMappedBuffer { memory: u64, offset: u64, len: u64 },
    /// Create a completion marker in `ctx`; returns its handle.
    NewEvent { ctx: u64 },
    /// Mark `event` as the point reached by the work queued so far on `stream`.
    RecordEvent { event: u64, stream: u64 },
    /// Make `stream` wait until `event` completes.
    StreamWait { stream: u64, event: u64 },
    /// Free device memory at `ptr`.
    MemoryFree { ptr: u64 },
    /// Destroy imported memory.
    DestroyExternalMemory { memory: u64 },
    /// Destroy a completion marker.
    DestroyEvent { event: u64 },
    /// Close an OS resource.
    CloseFile { raw: u64 },
}

/// A context's slot for errors met where they cannot be returned (teardown).
///
/// A recorded error stays until it is taken with [`DeferredErrors::check_err`];
/// a later one replaces it.
#[derive(Debug)]
pub struct DeferredErrors {
    slot: Option<DriverError>,
}

impl DeferredErrors {
    pub closed spec fn pending(&self) -> Option<DriverError> {
        self.slot
    }

    pub fn new() -> (r: Self)
        ensures
            r.pending() is None,
    {
        DeferredErrors { slot: None }
    }

    /// Keeps the error of `result`, if it is one.
    pub fn record_err<T>(&mut self, result: Result<T, DriverError>)
        ensures
            final(self).pending() == match result {
                Ok(_) => old(self).pending(),
                Err(e) => Some(e),
            },
    {
        if let Err(e) = result {
            self.slot = Some(e);
        }
    }

    /// Takes the recorded error, leaving the slot empty.
    pub fn check_err(&mut self) -> (r: Result<(), DriverError>)
        ensures
            final(self).pending() is None,
            r == match old(self).pending() {
                Some(e) => Err::<(), DriverError>(e),
                None => Ok(()),
            },
    {
        match self.slot.take() {
            Some(e) => Err(e),
            None => Ok(()),
        }
    }
}

} // verus!
