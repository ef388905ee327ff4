use cndrv::cnnl::version::Version as CnnlVersion;
use cndrv::Version;
use std::cmp::Ordering;

#[test]
fn version_text() {
    assert_eq!(Version::new(5, 10, 22).to_string(), "5.10.22");
    assert_eq!(Version::new(0, 0, 0).to_string(), "0.0.0");
    assert_eq!(Version::new(-1, 2, -30).to_string(), "-1.2.-30");
    assert_eq!(
        Version::new(i32::MIN, i32::MAX, 7).to_string(),
        "-2147483648.2147483647.7"
    );
}

#[test]
fn version_order_is_lexicographic() {
    let v = Version::new(1, 2, 3);
    assert_eq!(v.cmp(&Version::new(1, 2, 3)), Ordering::Equal);
    assert_eq!(v.cmp(&Version::new(2, 0, 0)), Ordering::Less);
    assert_eq!(v.cmp(&Version::new(1, 3, 0)), Ordering::Less);
    assert_eq!(v.cmp(&Version::new(1, 2, 4)), Ordering::Less);
    assert_eq!(v.cmp(&Version::new(0, 9, 9)), Ordering::Greater);
    assert_eq!(v.cmp(&Version::new(1, 1, 9)), Ordering::Greater);
    assert_eq!(v.cmp(&Version::new(1, 2, 2)), Ordering::Greater);
}

#[test]
fn version_order_laws_on_values() {
    let a = Version::new(1, 2, 3);
    let b = Version::new(1, 3, 0);
    let c = Version::new(2, 0, 0);
    assert_eq!(a.cmp(&b), b.cmp(&a).reverse());
    assert!(a < b && b < c && a < c);
    assert_eq!(a.partial_cmp(&b), Some(a.cmp(&b)));
    assert!(a <= a && a >= a);
    let mut vs = vec![c, a, b];
    vs.sort();
    assert_eq!(vs, vec![a, b, c]);
}

#[test]
fn cnnl_version_text() {
    assert_eq!(CnnlVersion::get(1, 19, 0).to_string(), "1.19.0");
}
