//! Manifest parsing, validation, and view resolution.

use osiris_platform::manifest::ErrorView;
use osiris_platform::manifest::Manifest;
use osiris_platform::manifest::Raw;
use osiris_platform::manifest::RawApplication;
use osiris_platform::manifest::RawPlatformAndroid;
use osiris_platform::util::symbolize;

fn android_table(
    namespace: Option<&str>,
    min_sdk: Option<u32>,
    target_sdk: Option<u32>,
    compile_sdk: Option<u32>,
) -> RawPlatformAndroid {
    RawPlatformAndroid {
        application_id: Some("com.example.app".to_string()),
        namespace: namespace.map(|v| v.to_string()),
        compile_sdk,
        min_sdk,
        target_sdk,
        ndk_level: Some(25),
        version_code: None,
        version_name: None,
        sdk_path: Some("/opt/sdk".to_string()),
    }
}

fn empty_raw() -> Raw {
    Raw {
        version: 1,
        application: None,
        platform: Vec::new(),
    }
}

// Verify basic parsing of `Raw`
//
// Parse a minimal raw manifest into `Raw` to have a base-level test for
// the parsing capabilities. Not complex content verification is done.
#[test]
fn raw_parse_minimal() {
    let s = "version = 1";

    Raw::parse_str(s).unwrap();
}

// Verify unknown versions in `Raw`
//
// Parse a high version number and verify that the raw content parser
// does not care for its value other than syntactic correctness.
#[test]
fn raw_parse_unknown_version() {
    let s = "version = 12345678";

    Raw::parse_str(s).unwrap();
}

// Verify basic parsing of `Manifest`
//
// Parse a minimal manifest into `Manifest` to have a base-level test for
// the parsing capabilities. Not complex content verification is done.
#[test]
fn manifest_parse_minimal() {
    let s = "version = 1";

    Manifest::parse_str(s).unwrap();
}

// Verify parsing of unknown manifest versions
//
// Parse an unknown manifest version and verify that the manifest correctly
// refuses it as invalid.
#[test]
fn manifest_parse_unknown_version() {
    let s = "version = 2";

    assert!(Manifest::parse_str(s).is_err());
}

// Verify simple parsing of `Manifest`
//
// A rather simple parsing test to verify basic sub-field parsing and
// verification.
#[test]
fn manifest_parse_simple() {
    let s = "
        version = 1
        [application]
        id = \"test\"
        path = \".\"
        [[platform]]
        id = \"test\"
        path = \"./platform/foobar\"
    ";

    let m = Manifest::parse_str(s).unwrap();

    assert_eq!(m.raw.version, 1);
    assert_eq!(m.raw.application.unwrap().path.unwrap(), ".");
    assert_eq!(m.raw.platform[0].path.as_ref().unwrap(), "./platform/foobar");
}

// Verify parsing of manifest application names
//
// Application names use a restrictive character set. Verify the validator
// and ensure invalid characters are refused.
#[test]
fn manifest_parse_application_name() {
    let s = "
        version = 1
        [application]
        name = \"Foo Bar\"
    ";

    let m = Manifest::parse_str(s).unwrap();
    assert_eq!(m.raw.application.unwrap().name.unwrap(), "Foo Bar");

    let s = "
        version = 1
        [application]
        name = \"Foo\"Bar\"
    ";

    assert!(Manifest::parse_str(s).is_err());
}

// Verify parsing of manifest application ids
//
// Application IDs use a restrictive character set. Verify the validator
// and wrong encodings are not allowed.
#[test]
fn manifest_parse_application_id() {
    let s = "
        version = 1
        [application]
        id = \"_foobar0\"
    ";

    let m = Manifest::parse_str(s).unwrap();
    assert_eq!(m.raw.application.unwrap().id.unwrap(), "_foobar0");

    let s = "
        version = 1
        [application]
        id = \"\"
    ";

    assert!(Manifest::parse_str(s).is_err());
}

// Verify parsing of android platform sdk-paths
//
// The manifest verifies that these paths cannot contain newlines. No
// further verification is currently performed.
#[test]
fn manifest_parse_platform_android_sdk_path() {
    let s = "
        version = 1
        [[platform]]
        id = \"test\"
        [platform.android]
        sdk-path = \"./some/path\"
    ";

    let m = Manifest::parse_str(s).unwrap();
    assert_eq!(
        m.raw.platform[0].android().unwrap().sdk_path.as_ref().unwrap(),
        "./some/path"
    );

    let s = "
        version = 1
        [[platform]]
        id = \"test\"
        [platform.android]
        sdk-path = \"./some\npath\"
    ";

    assert!(Manifest::parse_str(s).is_err());
}

// Identifier charset: empty rejected, alphanumerics plus `-` and `_`
// accepted (full Unicode class), everything else rejected.
#[test]
fn identifier_charset() {
    assert!(!Manifest::is_identifier(""));
    assert!(Manifest::is_identifier("abc-DEF_012"));
    assert!(Manifest::is_identifier("_foobar0"));
    assert!(Manifest::is_identifier("grün"));
    assert!(!Manifest::is_identifier("a b"));
    assert!(!Manifest::is_identifier("a.b"));
    assert!(!Manifest::is_identifier("a/b"));
}

// Quoting safety: quotes, backslashes, and control characters are
// rejected; everything else is accepted.
#[test]
fn quotable_charset() {
    assert!(Manifest::is_quotable(""));
    assert!(Manifest::is_quotable("Foo Bar!"));
    assert!(!Manifest::is_quotable("a\"b"));
    assert!(!Manifest::is_quotable("a'b"));
    assert!(!Manifest::is_quotable("a\\b"));
    assert!(!Manifest::is_quotable("a\tb"));
    assert!(!Manifest::is_quotable("a\nb"));
    assert!(!Manifest::is_quotable("a\u{7f}b"));
}

// A version string where an integer is expected is a hard parse error,
// as are out-of-range and fractional SDK levels.
#[test]
fn type_mismatch_is_parse_error() {
    assert!(Raw::parse_str("version = \"1\"").is_err());
    assert!(Raw::parse_str("version = -1").is_err());
    let s = "
        version = 1
        [[platform]]
        id = \"test\"
        [platform.android]
        min-sdk = -3
    ";
    assert!(Raw::parse_str(s).is_err());
    let s = "
        version = 1
        [[platform]]
        id = \"test\"
        [platform.android]
        min-sdk = 1.5
    ";
    assert!(Raw::parse_str(s).is_err());
}

// Unknown fields — including unknown platform configurations — are
// ignored for forward compatibility.
#[test]
fn unknown_fields_are_ignored() {
    let s = "
        version = 1
        future-field = true
        [application]
        id = \"app\"
        another = 3
        [[platform]]
        id = \"web\"
        [platform.web]
        renderer = \"canvas\"
    ";
    let m = Manifest::parse_str(s).unwrap();
    let p = m.raw.platform_by_id("web").unwrap();
    assert!(p.android().is_none());
}

// The application view applies defaults: the name falls back to the ID,
// the path to `.`, and the symbols are derived from ID and package.
#[test]
fn view_application_defaults() {
    let app = RawApplication {
        id: Some("foo-bar".to_string()),
        name: None,
        path: None,
        package: Some("foo-pkg".to_string()),
    };
    let view = app.view().unwrap();
    assert_eq!(view.id, "foo-bar");
    assert_eq!(view.id_symbol, "foo_bar");
    assert_eq!(view.name, "foo-bar");
    assert_eq!(view.path, ".");
    assert_eq!(view.package, "foo-pkg");
    assert_eq!(view.package_symbol, "foo_pkg");
}

// Required application keys are reported in order: `.id` before
// `.package`, and `application` when the whole table is absent.
#[test]
fn view_application_missing_keys() {
    let app = RawApplication { id: None, name: None, path: None, package: None };
    let ErrorView::MissingKey(k) = app.view().unwrap_err();
    assert_eq!(k, ".id");

    let app = RawApplication {
        id: Some("app".to_string()),
        name: None,
        path: None,
        package: None,
    };
    let ErrorView::MissingKey(k) = app.view().unwrap_err();
    assert_eq!(k, ".package");

    let raw = empty_raw();
    let ErrorView::MissingKey(k) = raw.view_application().unwrap_err();
    assert_eq!(k, "application");
}

// SDK-triple resolution over all eight presence combinations, per the
// precedence table.
#[test]
fn sdk_triple_resolution() {
    let raw = empty_raw();
    let cases: Vec<(Option<u32>, Option<u32>, Option<u32>, (u32, u32, u32))> = vec![
        (Some(21), None, None, (21, 21, 21)),
        (None, Some(28), None, (28, 28, 28)),
        (None, None, Some(33), (33, 33, 33)),
        (Some(21), Some(28), None, (21, 28, 28)),
        (Some(21), None, Some(33), (21, 33, 33)),
        (None, Some(28), Some(33), (28, 28, 33)),
        (Some(21), Some(28), Some(33), (21, 28, 33)),
    ];
    for (min, tar, com, expected) in cases {
        let a = android_table(Some("com.example"), min, tar, com);
        let view = a.view(&raw).unwrap();
        assert_eq!((view.min_sdk, view.target_sdk, view.compile_sdk), expected);

        // Idempotence: resolving the resolved triple returns it unchanged.
        let b = android_table(
            Some("com.example"),
            Some(view.min_sdk),
            Some(view.target_sdk),
            Some(view.compile_sdk),
        );
        let again = b.view(&raw).unwrap();
        assert_eq!(
            (again.min_sdk, again.target_sdk, again.compile_sdk),
            (view.min_sdk, view.target_sdk, view.compile_sdk)
        );
    }

    // No SDK field at all: the resolution stops with `.min-sdk`.
    let a = android_table(Some("com.example"), None, None, None);
    let ErrorView::MissingKey(k) = a.view(&raw).unwrap_err();
    assert_eq!(k, ".min-sdk");
}

// Android view defaults and missing-key order.
#[test]
fn view_android_requirements() {
    let raw = empty_raw();

    let a = android_table(None, Some(21), None, None);
    let ErrorView::MissingKey(k) = a.view(&raw).unwrap_err();
    assert_eq!(k, ".namespace");

    let mut a = android_table(Some("com.example"), Some(21), None, None);
    a.application_id = None;
    let ErrorView::MissingKey(k) = a.view(&raw).unwrap_err();
    assert_eq!(k, ".application-id");

    let mut a = android_table(Some("com.example"), Some(21), None, None);
    a.ndk_level = None;
    let ErrorView::MissingKey(k) = a.view(&raw).unwrap_err();
    assert_eq!(k, ".ndk-level");

    let mut a = android_table(Some("com.example"), Some(21), None, None);
    a.sdk_path = None;
    let ErrorView::MissingKey(k) = a.view(&raw).unwrap_err();
    assert_eq!(k, ".sdk-path");

    let a = android_table(Some("com.example"), Some(21), None, None);
    let view = a.view(&raw).unwrap();
    assert_eq!(view.version_code, 1);
    assert_eq!(view.version_name, "0.1.0");
    assert_eq!(view.application_id, "com.example.app");
}

// The platform-level application ID falls back to the manifest's
// application ID.
#[test]
fn view_android_application_id_fallback() {
    let raw = Raw {
        version: 1,
        application: Some(RawApplication {
            id: Some("app".to_string()),
            name: None,
            path: None,
            package: Some("pkg".to_string()),
        }),
        platform: Vec::new(),
    };
    let mut a = android_table(Some("com.example"), Some(21), None, None);
    a.application_id = None;
    let view = a.view(&raw).unwrap();
    assert_eq!(view.application_id, "app");
}

// Platform lookup returns the first entry with a matching ID.
#[test]
fn platform_lookup_first_match() {
    let s = "
        version = 1
        [[platform]]
        id = \"android\"
        path = \"./first\"
        [[platform]]
        id = \"android\"
        path = \"./second\"
    ";
    let m = Manifest::parse_str(s).unwrap();
    let p = m.raw.platform_by_id("android").unwrap();
    assert_eq!(p.path.as_ref().unwrap(), "./first");
    assert!(m.raw.platform_by_id("ios").is_none());
}

// The platform path defaults to `./platform/<id>`.
#[test]
fn platform_path_default() {
    let s = "
        version = 1
        [[platform]]
        id = \"android\"
    ";
    let m = Manifest::parse_str(s).unwrap();
    let p = m.raw.platform_by_id("android").unwrap();
    assert_eq!(p.path(), "./platform/android");
}

// Symbol derivation: unsafe characters become underscores and a leading
// digit is guarded.
#[test]
fn symbolize_examples() {
    assert_eq!(symbolize("foo-bar"), "foo_bar");
    assert_eq!(symbolize("0abc"), "_0abc");
    assert_eq!(symbolize("a.b c"), "a_b_c");
    assert_eq!(symbolize(""), "");
    assert_eq!(symbolize("plain_name9"), "plain_name9");
}
