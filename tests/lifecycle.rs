use std::sync::Arc;

use extmem::driver::{
    CudaContext, CudaStream, DeferredErrors, DriverCall, DriverError, HandleKind, OsFile,
    NULL_STREAM,
};
use extmem::memory::{ExternalMemory, MappedBuffer};

fn context() -> Arc<CudaContext> {
    Arc::new(CudaContext { handle: 7 })
}

fn imported(kind: HandleKind, size: u64) -> ExternalMemory {
    let file = OsFile { raw: 3, kind };
    context()
        .import_external_memory(file, size, Ok(()), Ok(11))
        .expect("import succeeds")
}

fn mapped(kind: HandleKind, size: u64) -> MappedBuffer {
    imported(kind, size).map_all(Ok(0x1000), Ok(5)).expect("mapping succeeds")
}

fn position(calls: &[DriverCall], call: DriverCall) -> usize {
    calls.iter().position(|c| *c == call).expect("call issued")
}

fn count(calls: &[DriverCall], pred: impl Fn(&DriverCall) -> bool) -> usize {
    calls.iter().filter(|c| pred(c)).count()
}

#[test]
fn import_calls_follow_handle_kind() {
    let ctx = context();
    let fd = OsFile { raw: 3, kind: HandleKind::OpaqueFd };
    let win = OsFile { raw: 4, kind: HandleKind::OpaqueWin32 };
    assert_eq!(
        ctx.import_calls(&fd, 4096),
        vec![
            DriverCall::BindToThread { ctx: 7 },
            DriverCall::ImportOpaqueFd { fd: 3, size: 4096 }
        ]
    );
    assert_eq!(
        ctx.import_calls(&win, 64),
        vec![
            DriverCall::BindToThread { ctx: 7 },
            DriverCall::ImportOpaqueWin32 { handle: 4, size: 64 }
        ]
    );
}

#[test]
fn import_keeps_size_and_handle() {
    let m = imported(HandleKind::OpaqueFd, 4096);
    assert_eq!(m.size(), 4096);
    assert_eq!(
        m.close(),
        vec![
            DriverCall::BindToThread { ctx: 7 },
            DriverCall::DestroyExternalMemory { memory: 11 }
        ]
    );
}

#[test]
fn failed_import_builds_nothing() {
    let file = OsFile { raw: 3, kind: HandleKind::OpaqueFd };
    let r = context().import_external_memory(file, 4096, Ok(()), Err(DriverError { code: 1 }));
    assert_eq!(r.err(), Some(DriverError { code: 1 }));
}

#[test]
fn failed_bind_stops_import() {
    let file = OsFile { raw: 3, kind: HandleKind::OpaqueWin32 };
    let r = context().import_external_memory(
        file,
        4096,
        Err(DriverError { code: 201 }),
        Ok(11),
    );
    assert_eq!(r.err(), Some(DriverError { code: 201 }));
}

#[test]
fn map_all_equals_full_range() {
    let whole = imported(HandleKind::OpaqueFd, 4096);
    assert_eq!(
        whole.map_calls(&(0..4096)),
        vec![
            DriverCall::GetMappedBuffer { memory: 11, offset: 0, len: 4096 },
            DriverCall::NewEvent { ctx: 7 }
        ]
    );
    let a = whole.map_all(Ok(0x1000), Ok(5)).expect("mapping succeeds");
    let b = imported(HandleKind::OpaqueFd, 4096)
        .map_range(0..4096, Ok(0x1000), Ok(5))
        .expect("mapping succeeds");
    assert_eq!(a.len(), 4096);
    assert_eq!(a.len(), b.len());
    assert_eq!(a.stream(), b.stream());
    assert_eq!(a.close(), b.close());
}

#[test]
fn partial_range_maps_its_bytes() {
    let m = imported(HandleKind::OpaqueFd, 4096);
    assert_eq!(
        m.map_calls(&(1024..3072)),
        vec![
            DriverCall::GetMappedBuffer { memory: 11, offset: 1024, len: 2048 },
            DriverCall::NewEvent { ctx: 7 }
        ]
    );
    let v = m.map_range(1024..3072, Ok(0x2000), Ok(6)).expect("mapping succeeds");
    assert_eq!(v.len(), 2048);
    assert_eq!(v.stream().handle, NULL_STREAM);
    let (ptr, _) = v.device_ptr(&CudaStream { handle: 9 });
    assert_eq!(ptr, 0x2000);
}

#[test]
fn reversed_range_is_empty() {
    let m = imported(HandleKind::OpaqueFd, 4096);
    assert!(m.fits(&(100..10)));
    let v = m.map_range(100..10, Ok(0x2000), Ok(6)).expect("mapping succeeds");
    assert_eq!(v.len(), 0);
}

#[test]
fn oversized_range_is_rejected() {
    let m = imported(HandleKind::OpaqueFd, 4096);
    let range = 0..8192;
    let mut issued: Vec<DriverCall> = Vec::new();
    if m.fits(&range) {
        issued = m.map_calls(&range);
    }
    assert!(!m.fits(&(0..8192)));
    assert!(!m.fits(&(8192..8192)));
    assert!(m.fits(&(0..4096)));
    assert!(issued.is_empty());
}

#[test]
fn mapping_failure_tears_memory_down() {
    let m = imported(HandleKind::OpaqueWin32, 4096);
    let f = m.map_all(Err(DriverError { code: 2 }), Ok(5)).err().expect("mapping fails");
    assert_eq!(f.error, DriverError { code: 2 });
    assert_eq!(
        f.cleanup,
        vec![
            DriverCall::BindToThread { ctx: 7 },
            DriverCall::DestroyExternalMemory { memory: 11 },
            DriverCall::CloseFile { raw: 3 }
        ]
    );
}

#[test]
fn marker_failure_frees_mapping() {
    let m = imported(HandleKind::OpaqueFd, 4096);
    let f = m.map_all(Ok(0x1000), Err(DriverError { code: 3 })).err().expect("mapping fails");
    assert_eq!(f.error, DriverError { code: 3 });
    assert_eq!(
        f.cleanup,
        vec![
            DriverCall::BindToThread { ctx: 7 },
            DriverCall::MemoryFree { ptr: 0x1000 },
            DriverCall::BindToThread { ctx: 7 },
            DriverCall::DestroyExternalMemory { memory: 11 }
        ]
    );
}

#[test]
fn read_then_teardown_waits_before_free() {
    let view = mapped(HandleKind::OpaqueFd, 4096);
    let q = CudaStream { handle: 42 };
    let (ptr, sync) = view.device_ptr(&q);
    assert_eq!(ptr, 0x1000);
    assert_eq!(sync.record_call(), DriverCall::RecordEvent { event: 5, stream: 42 });
    let calls = view.close();
    let wait = position(&calls, DriverCall::StreamWait { stream: NULL_STREAM, event: 5 });
    let free = position(&calls, DriverCall::MemoryFree { ptr: 0x1000 });
    assert!(wait < free);
    assert_eq!(count(&calls, |c| matches!(c, DriverCall::MemoryFree { .. })), 1);
    assert_eq!(
        count(&calls, |c| matches!(c, DriverCall::DestroyExternalMemory { memory: 11 })),
        1
    );
    assert_eq!(count(&calls, |c| matches!(c, DriverCall::CloseFile { .. })), 0);
    assert_eq!(
        calls,
        vec![
            DriverCall::BindToThread { ctx: 7 },
            DriverCall::StreamWait { stream: NULL_STREAM, event: 5 },
            DriverCall::MemoryFree { ptr: 0x1000 },
            DriverCall::BindToThread { ctx: 7 },
            DriverCall::DestroyExternalMemory { memory: 11 },
            DriverCall::DestroyEvent { event: 5 }
        ]
    );
}

#[test]
fn transferred_resource_is_never_closed() {
    let m = imported(HandleKind::OpaqueFd, 64);
    assert_eq!(count(&m.close(), |c| matches!(c, DriverCall::CloseFile { .. })), 0);
    let v = mapped(HandleKind::OpaqueFd, 64);
    assert_eq!(count(&v.close(), |c| matches!(c, DriverCall::CloseFile { .. })), 0);
}

#[test]
fn kept_resource_is_closed_once() {
    let m = imported(HandleKind::OpaqueWin32, 64);
    let calls = m.close();
    assert_eq!(count(&calls, |c| matches!(c, DriverCall::CloseFile { .. })), 1);
    assert_eq!(calls[2], DriverCall::CloseFile { raw: 3 });
    let v = mapped(HandleKind::OpaqueWin32, 64);
    let calls = v.close();
    assert_eq!(count(&calls, |c| matches!(c, DriverCall::CloseFile { .. })), 1);
    assert_eq!(calls[5], DriverCall::CloseFile { raw: 3 });
}

#[test]
fn handle_kind_decides_ownership() {
    assert!(HandleKind::OpaqueFd.transfers_ownership());
    assert!(!HandleKind::OpaqueWin32.transfers_ownership());
}

#[test]
fn deferred_errors_keep_latest_until_checked() {
    let mut errs = DeferredErrors::new();
    assert_eq!(errs.check_err(), Ok(()));
    errs.record_err(Ok::<u64, DriverError>(1));
    assert_eq!(errs.check_err(), Ok(()));
    errs.record_err(Err::<(), DriverError>(DriverError { code: 4 }));
    errs.record_err(Ok::<(), DriverError>(()));
    errs.record_err(Err::<(), DriverError>(DriverError { code: 5 }));
    assert_eq!(errs.check_err(), Err(DriverError { code: 5 }));
    assert_eq!(errs.check_err(), Ok(()));
}

#[test]
fn default_stream_is_null() {
    assert_eq!(context().default_stream(), CudaStream { handle: NULL_STREAM });
}
