use clack_core::extension::ExtensionDeclarations;
use clack_core::extension::ExtensionDescriptor;
use clack_core::extension::bytes_eq;
use clack_core::host::ClapVersion;
use clack_core::host::HostInfo;

#[test]
fn first_match_wins() {
    let mut decls = ExtensionDeclarations::new(b"x".to_vec());
    decls.register(b"x", 0xA);
    decls.register(b"x", 0xB);
    assert_eq!(decls.found(), Some(0xA));
}

#[test]
fn no_match_is_not_supported() {
    let mut decls = ExtensionDeclarations::new(b"y".to_vec());
    decls.register(b"x", 0xB);
    assert_eq!(decls.found(), None);
}

#[test]
fn nothing_registered_is_not_supported() {
    let decls = ExtensionDeclarations::new(b"x".to_vec());
    assert_eq!(decls.found(), None);
}

#[test]
fn match_after_misses_is_found() {
    let mut decls = ExtensionDeclarations::new(b"clap.timer-support".to_vec());
    decls.register(b"clap.gui", 1);
    decls.register(b"clap.log", 2);
    decls.register(b"clap.timer-support", 3);
    decls.register(b"clap.timer-support", 4);
    assert_eq!(decls.found(), Some(3));
}

#[test]
fn identifier_match_is_exact_bytes() {
    // No normalization, no case folding, no prefix matching.
    let mut decls = ExtensionDeclarations::new(b"clap.gui".to_vec());
    decls.register(b"clap.GUI", 1);
    decls.register(b"clap.gui2", 2);
    decls.register(b"clap.gu", 3);
    assert_eq!(decls.found(), None);
}

#[test]
fn bytes_eq_compares_exactly() {
    assert!(bytes_eq(b"abc", b"abc"));
    assert!(!bytes_eq(b"abc", b"abd"));
    assert!(!bytes_eq(b"abc", b"abcd"));
    assert!(bytes_eq(b"", b""));
}

fn host_with(extensions: Vec<ExtensionDescriptor>) -> HostInfo {
    HostInfo::new(
        "Example host".to_string(),
        "Example vendor".to_string(),
        "https://example.invalid".to_string(),
        "0.1.0".to_string(),
        ClapVersion { major: 1, minor: 2, revision: 3 },
        extensions,
    )
}

#[test]
fn host_get_extension_first_match() {
    let host = host_with(vec![
        ExtensionDescriptor { identifier: b"clap.log".to_vec(), interface: 10 },
        ExtensionDescriptor { identifier: b"clap.gui".to_vec(), interface: 20 },
        ExtensionDescriptor { identifier: b"clap.gui".to_vec(), interface: 30 },
    ]);
    assert_eq!(host.get_extension(b"clap.gui"), Some(20));
    assert_eq!(host.get_extension(b"clap.log"), Some(10));
}

#[test]
fn host_get_extension_absent() {
    let host = host_with(vec![ExtensionDescriptor {
        identifier: b"clap.log".to_vec(),
        interface: 10,
    }]);
    assert_eq!(host.get_extension(b"clap.params"), None);
}

#[test]
fn host_record_is_read_back_verbatim() {
    let host = host_with(Vec::new());
    assert_eq!(host.name(), "Example host");
    assert_eq!(host.vendor(), "Example vendor");
    assert_eq!(host.url(), "https://example.invalid");
    assert_eq!(host.version(), "0.1.0");
    assert_eq!(host.clap_version(), ClapVersion { major: 1, minor: 2, revision: 3 });
}
