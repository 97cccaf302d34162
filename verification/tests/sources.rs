use libgfxinit::Sources;

#[test]
fn sources_lie_in_vendor_below_the_crate_dir() {
    let sources = Sources::new("/src/libgfxinit-src");
    assert_eq!(sources.libhwbase(), "/src/libgfxinit-src/vendor/libhwbase");
    assert_eq!(sources.libgfxinit(), "/src/libgfxinit-src/vendor/libgfxinit");
}

#[test]
fn sources_keep_a_trailing_separator_single() {
    let sources = Sources::new("/fw/");
    assert_eq!(sources.libhwbase(), "/fw/vendor/libhwbase");
    assert_eq!(sources.libgfxinit(), "/fw/vendor/libgfxinit");
}

#[test]
fn sources_below_a_relative_dir() {
    let sources = Sources::new("crates/src");
    assert_eq!(sources.libhwbase(), "crates/src/vendor/libhwbase");
    let copy = sources.clone();
    assert_eq!(copy.libgfxinit(), "crates/src/vendor/libgfxinit");
}

#[test]
fn sources_below_an_empty_dir() {
    let sources = Sources::new("");
    assert_eq!(sources.libhwbase(), "vendor/libhwbase");
    assert_eq!(sources.libgfxinit(), "vendor/libgfxinit");
}

#[test]
fn sources_for_the_same_dir_agree() {
    let a = Sources::new("/opt/fw");
    let b = Sources::new("/opt/fw");
    assert_eq!(a.libhwbase(), b.libhwbase());
    assert_eq!(a.libgfxinit(), b.libgfxinit());
    assert_ne!(a.libhwbase(), a.libgfxinit());
}
