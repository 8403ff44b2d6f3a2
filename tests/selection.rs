use zigup::error::ZigError;
use zigup::index::VersionIndex;
use zigup::platform::resolve_platform;
use zigup::versions::select_version;
use zigup::zig::ZigBuilder;

fn keys(ks: &[&str]) -> Vec<String> {
    ks.iter().map(|k| k.to_string()).collect()
}

#[test]
fn latest_ignores_labels_that_are_not_versions() {
    let r = select_version(&keys(&["0.9.0", "0.10.0", "master"]), None).unwrap();
    assert_eq!(r, "0.10.0");
}

#[test]
fn latest_orders_numerically_not_by_text() {
    let r = select_version(&keys(&["0.10.0", "0.9.1", "0.2.0"]), None).unwrap();
    assert_eq!(r, "0.10.0");
}

#[test]
fn release_orders_after_its_prerelease() {
    let r = select_version(&keys(&["1.0.0", "1.0.0-rc.1", "0.99.0"]), None).unwrap();
    assert_eq!(r, "1.0.0");
}

#[test]
fn latest_of_index_document() {
    let ix = VersionIndex::from_json(r#"{"0.9.0": {}, "0.10.0": {}, "master": {}}"#).unwrap();
    let r = select_version(&ix.versions(), None).unwrap();
    assert_eq!(r, "0.10.0");
}

#[test]
fn no_semantic_version_fails() {
    let r = select_version(&keys(&["master", "nightly"]), None);
    assert!(matches!(r, Err(ZigError::NoValidVersion)));
    let r = select_version(&keys(&[]), None);
    assert!(matches!(r, Err(ZigError::NoValidVersion)));
}

#[test]
fn requested_version_present() {
    let r = select_version(&keys(&["0.9.0", "master"]), Some("master")).unwrap();
    assert_eq!(r, "master");
}

#[test]
fn requested_version_missing_lists_keys() {
    let r = select_version(&keys(&["0.9.0", "0.10.0", "master"]), Some("0.11.0"));
    match r {
        Err(ZigError::VersionNotFound { requested, available }) => {
            assert_eq!(requested, "0.11.0");
            assert_eq!(available, vec!["0.9.0", "0.10.0", "master"]);
        }
        other => panic!("unexpected {:?}", other),
    }
}

#[test]
fn supported_platform_key() {
    let p = resolve_platform("x86_64", "linux").unwrap();
    assert_eq!(p.key(), "x86_64-linux");
    assert!(!p.is_windows());
    let p = resolve_platform("aarch64", "windows").unwrap();
    assert_eq!(p.key(), "aarch64-windows");
    assert!(p.is_windows());
}

#[test]
fn unsupported_arch_fails() {
    match resolve_platform("riscv64", "linux") {
        Err(ZigError::UnsupportedArch(a)) => assert_eq!(a, "riscv64"),
        other => panic!("unexpected {:?}", other.map(|p| p.key())),
    }
}

#[test]
fn unsupported_os_fails() {
    match resolve_platform("x86", "freebsd") {
        Err(ZigError::UnsupportedOs(o)) => assert_eq!(o, "freebsd"),
        other => panic!("unexpected {:?}", other.map(|p| p.key())),
    }
}

#[test]
fn index_that_is_not_json_fails() {
    assert!(matches!(VersionIndex::from_json("not json"), Err(ZigError::Parse)));
}

#[test]
fn index_that_is_not_an_object_fails() {
    assert!(matches!(VersionIndex::from_json("[1, 2]"), Err(ZigError::Parse)));
}

const INDEX: &str = r#"{
    "master": {"version": "0.11.0-dev.1", "x86_64-linux": {"tarball": "https://example/zig-linux-x86_64-0.11.0-dev.1.tar.xz"}},
    "0.10.0": {"date": "2022-10-31", "aarch64-macos": {"tarball": "https://example/zig-macos-aarch64-0.10.0.tar.xz"}},
    "0.9.0": {"x86_64-linux": {"tarball": "https://example/zig-linux-x86_64-0.9.0.tar.xz", "size": "1"}, "x86-linux": {"tarball": 5}, "x86-macos": {"size": "1"}}
}"#;

#[test]
fn url_of_listed_archive() {
    let ix = VersionIndex::from_json(INDEX).unwrap();
    let u = ix.resolve_download_url("0.9.0", "x86_64-linux").unwrap();
    assert_eq!(u, "https://example/zig-linux-x86_64-0.9.0.tar.xz");
}

#[test]
fn missing_platform_fails_beside_other_platforms() {
    let ix = VersionIndex::from_json(INDEX).unwrap();
    match ix.resolve_download_url("0.10.0", "x86_64-linux") {
        Err(ZigError::PlatformNotFound { version, platform }) => {
            assert_eq!(version, "0.10.0");
            assert_eq!(platform, "x86_64-linux");
        }
        other => panic!("unexpected {:?}", other),
    }
}

#[test]
fn platform_without_tarball_fails() {
    let ix = VersionIndex::from_json(INDEX).unwrap();
    let r = ix.resolve_download_url("0.9.0", "x86-macos");
    assert!(matches!(r, Err(ZigError::PlatformNotFound { .. })));
    let r = ix.resolve_download_url("0.10.0", "date");
    assert!(matches!(r, Err(ZigError::PlatformNotFound { .. })));
}

#[test]
fn tarball_that_is_not_text_fails() {
    let ix = VersionIndex::from_json(INDEX).unwrap();
    let r = ix.resolve_download_url("0.9.0", "x86-linux");
    assert!(matches!(r, Err(ZigError::MalformedUrl)));
}

#[test]
fn missing_release_fails() {
    let ix = VersionIndex::from_json(INDEX).unwrap();
    match ix.resolve_download_url("0.1.0", "x86_64-linux") {
        Err(ZigError::EntryNotFound(v)) => assert_eq!(v, "0.1.0"),
        other => panic!("unexpected {:?}", other),
    }
}

#[test]
fn build_picks_latest_and_its_archive() {
    let z = ZigBuilder::new().build(INDEX, "aarch64", "macos", "/h/.zigup").unwrap();
    assert_eq!(z.version, "0.10.0");
    assert_eq!(z.dlurl, "https://example/zig-macos-aarch64-0.10.0.tar.xz");
    assert_eq!(z.arch, "aarch64");
    assert_eq!(z.os, "macos");
    assert_eq!(z.home, "/h/.zigup");
    assert!(z.proxy.is_none());
}

#[test]
fn build_with_requested_version_and_proxy() {
    let z = ZigBuilder::new()
        .with_version("master")
        .with_proxy("http://proxy:3128")
        .build(INDEX, "x86_64", "linux", "/h/.zigup")
        .unwrap();
    assert_eq!(z.version, "master");
    assert_eq!(z.dlurl, "https://example/zig-linux-x86_64-0.11.0-dev.1.tar.xz");
    assert_eq!(z.proxy.as_deref(), Some("http://proxy:3128"));
}

#[test]
fn build_checks_version_before_platform() {
    let r = ZigBuilder::new().with_version("2.0.0").build(INDEX, "riscv64", "linux", "/r");
    assert!(matches!(r, Err(ZigError::VersionNotFound { .. })));
    let r = ZigBuilder::new().build(INDEX, "riscv64", "linux", "/r");
    assert!(matches!(r, Err(ZigError::UnsupportedArch(_))));
}

#[test]
fn build_without_archive_for_platform_fails() {
    let r = ZigBuilder::new().build(INDEX, "x86_64", "linux", "/r");
    assert!(matches!(r, Err(ZigError::PlatformNotFound { .. })));
}

#[test]
fn builder_defaults_and_setters() {
    let b = ZigBuilder::new();
    assert!(b.version.is_none() && b.proxy.is_none());
    let b = b.with_proxy("p").with_version("v");
    assert_eq!(b.version.as_deref(), Some("v"));
    assert_eq!(b.proxy.as_deref(), Some("p"));
}

#[test]
fn release_entry_that_is_not_an_object_lists_no_archive() {
    let ix = VersionIndex::from_json(r#"{"1.0.0": "soon", "0.1.0": {"x86_64-linux": 3}}"#).unwrap();
    assert_eq!(ix.releases.len(), 2);
    let r = ix.resolve_download_url("1.0.0", "x86_64-linux");
    assert!(matches!(r, Err(ZigError::PlatformNotFound { .. })));
    let r = ix.resolve_download_url("0.1.0", "x86_64-linux");
    assert!(matches!(r, Err(ZigError::PlatformNotFound { .. })));
}

#[test]
fn build_on_text_that_is_not_an_object_fails() {
    let r = ZigBuilder::new().build("[1, 2]", "x86_64", "linux", "/r");
    assert!(matches!(r, Err(ZigError::Parse)));
    let r = ZigBuilder::new().build("{", "x86_64", "linux", "/r");
    assert!(matches!(r, Err(ZigError::Parse)));
}
