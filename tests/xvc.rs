use talk_api_client::xvc::{AndroidSubXVCHasher, Win32XVCHasher, XVCHasher};

fn to_hex(bytes: &[u8]) -> String {
    bytes.iter().map(|b| format!("{:02x}", b)).collect()
}

#[test]
fn win32_known_vector() {
    let h = Win32XVCHasher::new_const("AB", "CD");
    let digest = h.full_xvc_hash("ZZZ==", "UA/1.0", "a@b.com");
    assert_eq!(digest.len(), 64);
    assert_eq!(to_hex(&digest[..8]), "51cd287b3866cfe0");
    assert_eq!(
        to_hex(&digest),
        "51cd287b3866cfe0fda8a4601baf3d1782b93256a48efeffb06bd24637ed003f\
         ce08df4d449b59ef5a730673152c836aa3980a462632e5b2589d432498be4ed7"
    );
}

#[test]
fn win32_is_deterministic() {
    let h = Win32XVCHasher::new("AB".to_string(), "CD".to_string());
    let a = h.full_xvc_hash("ZZZ==", "UA/1.0", "a@b.com");
    let b = h.full_xvc_hash("ZZZ==", "UA/1.0", "a@b.com");
    assert_eq!(a, b);
    assert_eq!(a.len(), 64);
    let other = Win32XVCHasher::new_const("AB", "CD");
    assert_eq!(other.full_xvc_hash("ZZZ==", "UA/1.0", "a@b.com"), a);
}

#[test]
fn win32_each_field_changes_digest() {
    let base = Win32XVCHasher::new_const("AB", "CD").full_xvc_hash("ZZZ==", "UA/1.0", "a@b.com");
    let changed = [
        Win32XVCHasher::new_const("AX", "CD").full_xvc_hash("ZZZ==", "UA/1.0", "a@b.com"),
        Win32XVCHasher::new_const("AB", "CX").full_xvc_hash("ZZZ==", "UA/1.0", "a@b.com"),
        Win32XVCHasher::new_const("AB", "CD").full_xvc_hash("ZZX==", "UA/1.0", "a@b.com"),
        Win32XVCHasher::new_const("AB", "CD").full_xvc_hash("ZZZ==", "UA/1.1", "a@b.com"),
        Win32XVCHasher::new_const("AB", "CD").full_xvc_hash("ZZZ==", "UA/1.0", "a@b.org"),
    ];
    for c in changed.iter() {
        assert_ne!(*c, base);
    }
}

#[test]
fn android_sub_each_field_changes_digest() {
    let base = AndroidSubXVCHasher::new_const("S1", "S2", "S3").full_xvc_hash("U", "UA", "e@x");
    let changed = [
        AndroidSubXVCHasher::new_const("T1", "S2", "S3").full_xvc_hash("U", "UA", "e@x"),
        AndroidSubXVCHasher::new_const("S1", "T2", "S3").full_xvc_hash("U", "UA", "e@x"),
        AndroidSubXVCHasher::new_const("S1", "S2", "T3").full_xvc_hash("U", "UA", "e@x"),
        AndroidSubXVCHasher::new_const("S1", "S2", "S3").full_xvc_hash("U", "UB", "e@x"),
        AndroidSubXVCHasher::new_const("S1", "S2", "S3").full_xvc_hash("U", "UA", "f@x"),
    ];
    for c in changed.iter() {
        assert_ne!(*c, base);
    }
}

#[test]
fn android_sub_ignores_uuid() {
    let h = AndroidSubXVCHasher::new("S1".to_string(), "S2".to_string(), "S3".to_string());
    let a = h.full_xvc_hash("UUID-ONE==", "KT/9.0.0 Wd/10.0 ko", "x@y.com");
    let b = h.full_xvc_hash("UUID-TWO==", "KT/9.0.0 Wd/10.0 ko", "x@y.com");
    assert_eq!(a, b);
    assert_eq!(to_hex(&a[..8]), "b6a0513872bdaa09");
}
