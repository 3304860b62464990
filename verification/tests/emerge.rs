//! Emission planning: the directory gate, the rendered file sequence,
//! and the platform identifier.

use osiris_platform::manifest::Manifest;
use osiris_platform::op::emerge::emerge;
use osiris_platform::op::emerge::escape_xml_pcdata;
use osiris_platform::op::emerge::namespace_to_path;
use osiris_platform::op::emerge::DirectoryStatus;
use osiris_platform::op::emerge::Error;
use osiris_platform::op::emerge::Op;
use osiris_platform::op::emerge::Plan;
use osiris_platform::platform::Id;

fn scenario_manifest() -> Manifest {
    let s = "
        version = 1
        [application]
        id = \"app\"
        package = \"pkg\"
        [[platform]]
        id = \"android\"
        [platform.android]
        namespace = \"com.example\"
        min-sdk = 21
        ndk-level = 25
        sdk-path = \"/opt/sdk\"
    ";
    Manifest::parse_str(s).unwrap()
}

fn write_ops(plan: &Plan) -> Vec<(String, String)> {
    let mut out = Vec::new();
    for op in plan.ops.iter() {
        if let Op::Write(path, content) = op {
            out.push((path.clone(), content.clone()));
        }
    }
    out
}

// XML PCDATA escaping: `&` and `<` are rewritten, everything else is
// kept verbatim.
#[test]
fn escape_xml_pcdata_examples() {
    assert_eq!(escape_xml_pcdata("a&b<c"), "a&amp;b&lt;c");
    assert_eq!(escape_xml_pcdata("plain"), "plain");
    assert_eq!(escape_xml_pcdata(""), "");
    assert_eq!(escape_xml_pcdata("&&"), "&amp;&amp;");
}

// Namespace paths: each dot becomes a path separator.
#[test]
fn namespace_path_examples() {
    assert_eq!(namespace_to_path("com.example.app"), "com/example/app");
    assert_eq!(namespace_to_path("plain"), "plain");
}

// Emission exclusivity: an existing directory without `update` fails
// with the already-present error, and nothing is planned.
#[test]
fn emerge_refuses_existing_directory() {
    let m = scenario_manifest();
    let p = m.raw.platform_by_id("android").unwrap();
    let r = emerge(&m, p, None, false, DirectoryStatus::IsDirectory);
    assert!(matches!(r, Err(Error::Already)));
}

// A path that exists but is not a directory fails with the platform
// directory error, carrying the offending path.
#[test]
fn emerge_refuses_non_directory() {
    let m = scenario_manifest();
    let p = m.raw.platform_by_id("android").unwrap();
    match emerge(&m, p, None, true, DirectoryStatus::NotDirectory) {
        Err(Error::PlatformDirectory(path)) => assert_eq!(path, "./platform/android"),
        _ => panic!("expected a platform directory error"),
    }
}

// End-to-end scenario: defaults resolve as specified and the plan emits
// a `local.properties` pointing at the configured SDK.
#[test]
fn emerge_scenario() {
    let m = scenario_manifest();
    let p = m.raw.platform_by_id("android").unwrap();

    let view = p.android().unwrap().view(&m.raw).unwrap();
    assert_eq!(view.application_id, "app");
    assert_eq!(
        (view.min_sdk, view.target_sdk, view.compile_sdk),
        (21, 21, 21)
    );
    assert_eq!(view.version_code, 1);
    assert_eq!(view.version_name, "0.1.0");

    let plan = emerge(&m, p, None, false, DirectoryStatus::Missing).unwrap();
    match &plan.ops[0] {
        Op::Dir(path) => assert_eq!(path, "./platform/android"),
        _ => panic!("expected the base directory first"),
    }
    let writes = write_ops(&plan);
    let local = writes
        .iter()
        .find(|(path, _)| path.ends_with("/local.properties"))
        .unwrap();
    assert!(local.1.contains("sdk.dir=/opt/sdk"));
}

// The planned tree is rooted at the override when one is given, and the
// activity source lands in the namespace directory.
#[test]
fn emerge_path_override() {
    let m = scenario_manifest();
    let p = m.raw.platform_by_id("android").unwrap();
    let plan = emerge(&m, p, Some("./build/scratch"), true, DirectoryStatus::IsDirectory).unwrap();
    let writes = write_ops(&plan);
    assert_eq!(writes[0].0, "./build/scratch/gradle.properties");
    let main = writes
        .iter()
        .find(|(path, _)| path.ends_with("MainActivity.java"))
        .unwrap();
    assert_eq!(
        main.0,
        "./build/scratch/src/main/java/com/example/MainActivity.java"
    );
    assert!(main.1.contains("package com.example;"));
}

// Emission idempotence: a second emission over the same manifest plans
// the same writes, so a content-diffed runner changes nothing.
#[test]
fn emerge_twice_plans_same_writes() {
    let m = scenario_manifest();
    let p = m.raw.platform_by_id("android").unwrap();
    let first = emerge(&m, p, None, false, DirectoryStatus::Missing).unwrap();
    let second = emerge(&m, p, None, true, DirectoryStatus::IsDirectory).unwrap();
    assert_eq!(first.ops.len(), second.ops.len() + 1);
    assert_eq!(write_ops(&first), write_ops(&second));
}

// The rendered root files carry exactly the fixed template content.
#[test]
fn emerge_renders_templates_exactly() {
    let m = scenario_manifest();
    let p = m.raw.platform_by_id("android").unwrap();
    let plan = emerge(&m, p, None, false, DirectoryStatus::Missing).unwrap();
    let writes = write_ops(&plan);

    assert_eq!(writes[0].0, "./platform/android/gradle.properties");
    assert_eq!(
        writes[0].1,
        "# Generated by osiris-platform\n\
         org.gradle.daemon=false\n\
         org.gradle.jvmargs=-Xmx2048m -Dfile.encoding=UTF-8\n\
         android.useAndroidX=true\n\
         android.nonTransitiveRClass=true\n"
    );

    assert_eq!(writes[1].0, "./platform/android/local.properties");
    assert_eq!(
        writes[1].1,
        "# Generated by osiris-platform\nsdk.dir=/opt/sdk\n"
    );

    let strings = writes
        .iter()
        .find(|(path, _)| path.ends_with("/strings.xml"))
        .unwrap();
    assert_eq!(
        strings.1,
        "<!-- Generated by osiris-platform -->\n\
         <resources>\n    <string name=\"app_name\">app</string>\n\
         </resources>\n"
    );
}

// Missing required key: a platform configuration lacking a namespace
// fails resolution with the `.namespace` key, before anything is
// planned.
#[test]
fn emerge_missing_namespace() {
    let s = "
        version = 1
        [application]
        id = \"app\"
        package = \"pkg\"
        [[platform]]
        id = \"android\"
        [platform.android]
        min-sdk = 21
    ";
    let m = Manifest::parse_str(s).unwrap();
    let p = m.raw.platform_by_id("android").unwrap();
    match emerge(&m, p, None, false, DirectoryStatus::Missing) {
        Err(Error::ManifestKey(k)) => assert_eq!(k, ".namespace"),
        _ => panic!("expected a missing manifest key"),
    }
}

// The rendered application name is escaped in PCDATA position.
#[test]
fn emerge_escapes_application_name() {
    let s = "
        version = 1
        [application]
        id = \"app\"
        name = \"Fish & Chips\"
        package = \"pkg\"
        [[platform]]
        id = \"android\"
        [platform.android]
        namespace = \"com.example\"
        min-sdk = 21
        ndk-level = 25
        sdk-path = \"/opt/sdk\"
    ";
    let m = Manifest::parse_str(s).unwrap();
    let p = m.raw.platform_by_id("android").unwrap();
    let plan = emerge(&m, p, None, false, DirectoryStatus::Missing).unwrap();
    let writes = write_ops(&plan);
    let strings = writes
        .iter()
        .find(|(path, _)| path.ends_with("/strings.xml"))
        .unwrap();
    assert!(strings.1.contains("Fish &amp; Chips"));
}

// A platform entry without any configuration plans only the base
// directory.
#[test]
fn emerge_without_configuration() {
    let s = "
        version = 1
        [[platform]]
        id = \"bare\"
    ";
    let m = Manifest::parse_str(s).unwrap();
    let p = m.raw.platform_by_id("bare").unwrap();
    let plan = emerge(&m, p, None, false, DirectoryStatus::Missing).unwrap();
    assert_eq!(plan.ops.len(), 1);
    let plan = emerge(&m, p, None, true, DirectoryStatus::IsDirectory).unwrap();
    assert_eq!(plan.ops.len(), 0);
}

// Platform identifiers parse case-insensitively and round-trip through
// their string representation.
#[test]
fn platform_id_round_trip() {
    let id: Id = "Android".parse().unwrap();
    assert_eq!(id.as_str(), "android");
    let id: Id = id.as_str().parse().unwrap();
    assert_eq!(id.as_str(), "android");
    assert!("ios".parse::<Id>().is_err());
    assert!("androidx".parse::<Id>().is_err());
}
