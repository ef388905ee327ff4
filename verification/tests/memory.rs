use cndrv::memory::{CopyDirection, Transfer};
use cndrv::{CurrentCtx, memcpy_d2d, memcpy_d2h, memcpy_h2d, DevByte, DevMemSpore, Queue};

fn device_bytes(n: usize) -> Vec<DevByte> {
    (0..n).map(|_| DevByte(0)).collect()
}

#[test]
fn copies_between_host_and_device() {
    let dev = device_bytes(16);
    let host = [0f32; 4];
    assert_eq!(
        memcpy_d2h(&host, &dev),
        Transfer { direction: CopyDirection::DeviceToHost, bytes: 16, queue: None }
    );
    assert_eq!(
        memcpy_h2d(&dev, &[1u64, 2]),
        Transfer { direction: CopyDirection::HostToDevice, bytes: 16, queue: None }
    );
    assert_eq!(
        memcpy_d2d(&device_bytes(3), &device_bytes(3)),
        Transfer { direction: CopyDirection::DeviceToDevice, bytes: 3, queue: None }
    );
}

#[test]
fn copies_on_a_queue() {
    let queue = Queue { ctx: 0x10, raw: 0x20 };
    assert_eq!(queue.as_raw(), 0x20);
    assert_eq!(
        queue.memcpy_h2d(&device_bytes(8), &[7u16; 4]),
        Transfer { direction: CopyDirection::HostToDevice, bytes: 8, queue: Some(0x20) }
    );
    assert_eq!(
        queue.memcpy_d2d(&device_bytes(0), &device_bytes(0)),
        Transfer { direction: CopyDirection::DeviceToDevice, bytes: 0, queue: Some(0x20) }
    );
}

#[test]
fn device_memory_spore_length() {
    let spore = DevMemSpore { ctx: 1, ptr: 0x1000, len: 64 };
    assert_eq!(spore.len(), 64);
    assert!(!spore.is_empty());
    let empty = DevMemSpore { ctx: 1, ptr: 0, len: 0 };
    assert_eq!(empty.len(), 0);
    assert!(empty.is_empty());
}

#[test]
fn allocation_sizes() {
    let ctx = CurrentCtx(0x10);
    assert_eq!(ctx.malloc::<f32>(64), 256);
    assert_eq!(ctx.malloc::<u8>(0), 0);
    assert_eq!(ctx.malloc_host::<u64>(3), 24);
}
