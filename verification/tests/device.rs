use cndrv::context::{ContextRelease, ContextSwitch};
use cndrv::{CurrentCtx, Device, MemSize, NoCtxError};

fn buffer(text: &[u8], len: usize) -> Vec<u8> {
    let mut b = vec![0u8; len];
    b[..text.len()].copy_from_slice(text);
    b
}

#[test]
fn device_count_and_fetch() {
    assert_eq!(Device::count(3), 3);
    assert_eq!(Device::count(0), 0);
    assert_eq!(Device::fetch(2), Some(0));
    assert_eq!(Device::fetch(0), None);
}

#[test]
fn device_name_stops_at_first_zero() {
    let raw = buffer(b"MLU370-X8", 256);
    assert_eq!(Device::name(&raw), "MLU370-X8");
    let raw = buffer("设备 a\0junk".as_bytes(), 32);
    assert_eq!(Device::name(&raw), "设备 a");
    assert_eq!(Device::name(b"no terminator"), "no terminator");
    assert_eq!(Device::uuid(&buffer(b"0f6a-22", 36)), "0f6a-22");
    assert_eq!(Device::uuid(&[0u8; 36]), "");
}

#[test]
fn device_total_memory() {
    assert_eq!(Device::total_memory(48 << 30), MemSize(48 << 30));
}

#[test]
fn device_info_text() {
    let info = Device(1).info("MLU370".to_string(), "abc-123".to_string(), 372, MemSize(24 << 30));
    assert_eq!(info.to_string(), "MLU1 (MLU370: #abc-123) isa=372 | memory=24GiB");
    let info = Device(0).info(String::new(), String::new(), -1, MemSize(0));
    assert_eq!(info.to_string(), "MLU0 (: #) isa=-1 | memory=0");
}

#[test]
fn context_release_and_device() {
    let dev = Device(2);
    let own = dev.context(0x1000);
    assert_eq!(own.device(), Device(2));
    assert_eq!(own.as_raw(), 0x1000);
    assert_eq!(own.release(), ContextRelease::Destroy(0x1000));
    let shared = dev.acquire_shared(0x2000);
    assert_eq!(shared.release(), ContextRelease::ReleaseShared(2));
}

#[test]
fn context_apply_restores_previous() {
    let ctx = Device(0).context(0xabc0);
    let s = ctx.apply(0x5550);
    assert_eq!(s, ContextSwitch { enter: 0xabc0, current: CurrentCtx(0xabc0), restore: 0x5550 });
    let s = ctx.apply(0);
    assert_eq!(s.restore, 0);
}

#[test]
fn current_context_apply() {
    assert_eq!(CurrentCtx::apply_current(0, |c: &CurrentCtx| c.as_raw()), Err(NoCtxError));
    assert_eq!(CurrentCtx::apply_current(0x40, |c: &CurrentCtx| c.as_raw() + 1), Ok(0x41));
    assert_eq!(CurrentCtx(0x40).dev(3), Device(3));
}
