use cndrv::MemSize;

#[test]
fn mem_size_zero_is_plain_zero() {
    assert_eq!(MemSize(0).to_string(), "0");
}

#[test]
fn mem_size_picks_largest_exact_unit() {
    assert_eq!(MemSize(1).to_string(), "1B");
    assert_eq!(MemSize(1000).to_string(), "1000B");
    assert_eq!(MemSize(1024).to_string(), "1KiB");
    assert_eq!(MemSize(4096).to_string(), "4KiB");
    assert_eq!(MemSize(1536).to_string(), "1536B");
    assert_eq!(MemSize(3 << 20).to_string(), "3MiB");
    assert_eq!(MemSize((1 << 20) + 1024).to_string(), "1025KiB");
    assert_eq!(MemSize(16 << 30).to_string(), "16GiB");
    assert_eq!(MemSize(2usize << 40).to_string(), "2TiB");
    assert_eq!(MemSize(1024usize << 40).to_string(), "1024TiB");
}

#[test]
fn mem_size_text_is_exact() {
    // the number shown times the unit shown is the size
    for &(n, shown, unit) in &[
        (5usize << 30, 5usize, 1usize << 30),
        (7 * 1024 + 0, 7, 1024),
        (12345, 12345, 1),
        ((3 << 20) + (1 << 10), 3073, 1 << 10),
    ] {
        assert_eq!(shown * unit, n);
        let text = MemSize(n).to_string();
        assert!(text.starts_with(&shown.to_string()));
    }
}

#[test]
fn mem_size_from_driver_integers() {
    assert_eq!(MemSize::from(4096i32), MemSize(4096));
    assert_eq!(MemSize::from(-1i32), MemSize(usize::MAX));
    assert_eq!(MemSize::from(65536i64), MemSize(65536));
    assert_eq!(MemSize::from(12usize), MemSize(12));
}
