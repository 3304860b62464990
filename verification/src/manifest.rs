//! Platform Manifest
//!
//! The platform manifest is a TOML document that describes an application
//! and its platform integration. This module decodes the document into a
//! raw tree, validates it, and derives fully-resolved views with suitable
//! defaults from the raw data.

use vstd::prelude::*;

use crate::document::Node;
use crate::document::table_get;
use crate::document::table_get_spec;
use crate::document::toml_of;
use crate::util::char_alphanumeric;
use crate::util::char_is_control;
use crate::util::is_control;
use crate::util::symbolize;
use crate::util::symbolize_spec;

verus! {

/// View Generation Errors
#[derive(Debug)]
pub enum ErrorView {
    /// Specified key is required but missing. `.<key>` is used for relative
    /// keys, `<path>.<key>` for absolute keys.
    MissingKey(&'static str),
}

/// Raw Manifest Application Table
///
/// Sub-type of `Raw` representing the `Application` table. This contains all
/// configuration regarding the rust application.
#[derive(Debug)]
pub struct RawApplication {
    /// Identifier of the application. Used to register and identify the
    /// application. Must not change over the life of the application. Only
    /// alphanumeric and `-`, `_` allowed. Non-ASCII allowed but might break
    /// external tools.
    pub id: Option<String>,
    /// Human-readable name of the application.
    pub name: Option<String>,
    /// Path to the application root relative from the manifest.
    pub path: Option<String>,
    /// Name of the Cargo package that implements the application entry-point.
    pub package: Option<String>,
}

/// Android-Platform Table
///
/// Sub-type of `RawPlatform` defining all the Android platform integration
/// options and related definitions. The options in this table are
/// one-to-one mappings of their equivalents in the Android Application SDK.
#[derive(Debug)]
pub struct RawPlatformAndroid {
    pub application_id: Option<String>,
    pub namespace: Option<String>,
    pub compile_sdk: Option<u32>,
    pub min_sdk: Option<u32>,
    pub target_sdk: Option<u32>,
    pub ndk_level: Option<u32>,
    pub version_code: Option<u32>,
    pub version_name: Option<String>,
    pub sdk_path: Option<String>,
}

/// Platform-specific configuration, a closed variant set.
#[derive(Debug)]
pub enum RawPlatformConfiguration {
    Android(RawPlatformAndroid),
}

/// Raw Manifest Platform Table
///
/// Sub-type of `Raw` representing the `Platform` table. This contains all
/// configuration of the platform integration modules.
#[derive(Debug)]
pub struct RawPlatform {
    /// Custom ID of the platform integration.
    pub id: String,
    /// Path to the platform integration root relative from the manifest.
    pub path: Option<String>,
    /// Platform specific configuration.
    pub configuration: Option<RawPlatformConfiguration>,
}

/// Raw Manifest Content
///
/// This type contains the raw manifest content as decoded from the parsed
/// document. Content is not verified other than for syntactic correctness
/// required by the given types; semantic correctness is checked by
/// [`Manifest::parse_raw`].
#[derive(Debug)]
pub struct Raw {
    /// Version of the manifest format. Only version `1` is currently
    /// supported.
    pub version: u32,
    /// Application table specifying properties of the application itself.
    pub application: Option<RawApplication>,
    /// Platform table specifying all properties of the platform integration.
    pub platform: Vec<RawPlatform>,
}

/// Manifest View of `RawApplication`
///
/// This is a view of `RawApplication` with suitable defaults and generated
/// variants.
#[derive(Debug)]
pub struct ViewApplication {
    /// Same as `RawApplication.id`
    pub id: String,
    /// Valid symbol name generated from the ID.
    pub id_symbol: String,
    /// Same as `RawApplication.name`
    pub name: String,
    /// Same as `RawApplication.path`
    pub path: String,
    /// Same as `RawApplication.package`
    pub package: String,
    /// Valid symbol name generated from the package name.
    pub package_symbol: String,
}

/// Manifest View of `RawPlatformAndroid`
///
/// This is a view of `RawPlatformAndroid` with suitable defaults based on
/// the entire raw manifest.
#[derive(Debug)]
pub struct ViewPlatformAndroid {
    /// Same as `RawPlatformAndroid.application_id`.
    pub application_id: String,
    /// Same as `RawPlatformAndroid.namespace`.
    pub namespace: String,
    /// Same as `RawPlatformAndroid.compile_sdk`.
    pub compile_sdk: u32,
    /// Same as `RawPlatformAndroid.min_sdk`.
    pub min_sdk: u32,
    /// Same as `RawPlatformAndroid.target_sdk`.
    pub target_sdk: u32,
    /// Same as `RawPlatformAndroid.ndk_level`.
    pub ndk_level: u32,
    /// Same as `RawPlatformAndroid.version_code`.
    pub version_code: u32,
    /// Same as `RawPlatformAndroid.version_name`.
    pub version_name: String,
    /// Same as `RawPlatformAndroid.sdk_path`.
    pub sdk_path: String,
}

/// Manifest Abstraction
///
/// This type represents a valid and verified manifest. The manifest content
/// can be directly accessed via the `raw` field. The data is verified for
/// semantic correctness (unlike the `Raw` type): see [`valid_raw`].
#[derive(Debug)]
pub struct Manifest {
    /// Raw manifest content as parsed by the document module.
    pub raw: Raw,
}

/// A character allowed in an identifier: any Unicode alphanumeric
/// character, `-`, or `_`.
pub open spec fn identifier_char(c: char) -> bool {
    char_alphanumeric(c) || c == '-' || c == '_'
}

/// A non-empty string of identifier characters.
pub open spec fn is_identifier_spec(s: Seq<char>) -> bool {
    s.len() > 0 && forall|i: int| 0 <= i < s.len() ==> identifier_char(s[i])
}

/// A character that can stand verbatim between quotes in generated
/// configuration: no control characters, no backslash, no quotes.
pub open spec fn quotable_char(c: char) -> bool {
    !char_is_control(c) && c != '\\' && c != '\'' && c != '"'
}

/// A string of quotable characters only.
pub open spec fn is_quotable_spec(s: Seq<char>) -> bool {
    forall|i: int| 0 <= i < s.len() ==> quotable_char(s[i])
}

/// A path safe for line-oriented property files: no control characters
/// and no newlines.
pub open spec fn safe_path_spec(s: Seq<char>) -> bool {
    forall|i: int| 0 <= i < s.len() ==> !char_is_control(s[i]) && s[i] != '\n'
}

/// Validity of the application table: the ID, if present, is an
/// identifier, and the name, if present, is quotable.
pub open spec fn valid_application(app: RawApplication) -> bool {
    &&& (app.id matches Some(id) ==> is_identifier_spec(id@))
    &&& (app.name matches Some(n) ==> is_quotable_spec(n@))
}

/// Validity of an Android platform table: all quoted fields are quotable
/// and the SDK path is safe for property files.
pub open spec fn valid_android(a: RawPlatformAndroid) -> bool {
    &&& (a.application_id matches Some(v) ==> is_quotable_spec(v@))
    &&& (a.namespace matches Some(v) ==> is_quotable_spec(v@))
    &&& (a.version_name matches Some(v) ==> is_quotable_spec(v@))
    &&& (a.sdk_path matches Some(v) ==> safe_path_spec(v@))
}

/// Validity of one platform entry.
pub open spec fn valid_platform(p: RawPlatform) -> bool {
    p.configuration matches Some(RawPlatformConfiguration::Android(a)) ==> valid_android(a)
}

/// Validity of the decoded manifest pieces: the version gate and every
/// field-level check, application fields first, then each platform.
pub open spec fn valid_parts(
    version: u32,
    application: Option<RawApplication>,
    platforms: Seq<RawPlatform>,
) -> bool {
    &&& version == 1
    &&& (application matches Some(app) ==> valid_application(app))
    &&& (forall|i: int| 0 <= i < platforms.len() ==> valid_platform(#[trigger] platforms[i]))
}

/// Validity of a whole raw manifest.
pub open spec fn valid_raw(raw: Raw) -> bool {
    valid_parts(raw.version, raw.application, raw.platform@)
}

impl RawPlatform {
    /// Return Android Configuration
    ///
    /// Return a reference to the embedded android configuration, or `None`,
    /// depending on whether the platform configuration is for Android.
    pub fn android(&self) -> (r: Option<&RawPlatformAndroid>)
        ensures
            (match r {
                Some(a) => self.configuration matches Some(RawPlatformConfiguration::Android(x))
                    && *a == x,
                None => self.configuration is None,
            }),
    {
        if let Some(RawPlatformConfiguration::Android(v)) = self.configuration.as_ref() {
            Some(v)
        } else {
            None
        }
    }

    /// The configured platform path, or its default `./platform/<id>`.
    pub open spec fn path_spec(&self) -> Seq<char> {
        match self.path {
            Some(p) => p@,
            None => "./platform/"@ + self.id@,
        }
    }

    /// Return `platform.path` or its default
    ///
    /// Return the configured platform path, or its default value if missing.
    /// The default is `./platform/<id>` with `platform.id` as directory name.
    pub fn path(&self) -> (r: String)
        ensures
            r@ == self.path_spec(),
    {
        if let Some(path) = self.path.as_ref() {
            path.clone()
        } else {
            let mut s = String::from_str("./platform/");
            s.append(self.id.as_str());
            s
        }
    }
}

/// The first platform entry carrying the given ID, if any.
pub open spec fn platform_by_id_spec(platforms: Seq<RawPlatform>, id: Seq<char>) -> Option<
    RawPlatform,
>
    decreases platforms.len(),
{
    if platforms.len() == 0 {
        None
    } else if platforms[0].id@ == id {
        Some(platforms[0])
    } else {
        platform_by_id_spec(platforms.drop_first(), id)
    }
}

impl Raw {
    /// Find matching platform entry
    ///
    /// Search the platform entries for the first entry matching the specified
    /// platform ID.
    pub fn platform_by_id(&self, id: &str) -> (r: Option<&RawPlatform>)
        ensures
            (match r {
                Some(p) => platform_by_id_spec(self.platform@, id@) == Some(*p),
                None => platform_by_id_spec(self.platform@, id@) is None,
            }),
    {
        let n = self.platform.len();
        proof {
            assert(self.platform@.skip(0) =~= self.platform@);
        }
        let mut i: usize = 0;
        while i < n
            invariant
                i <= n,
                n == self.platform@.len(),
                platform_by_id_spec(self.platform@, id@) == platform_by_id_spec(
                    self.platform@.skip(i as int),
                    id@,
                ),
            decreases n - i,
        {
            proof {
                assert(self.platform@.skip(i as int)[0] == self.platform@[i as int]);
                assert(self.platform@.skip(i as int).drop_first() =~= self.platform@.skip(
                    i as int + 1,
                ));
            }
            if crate::util::str_eq(self.platform[i].id.as_str(), id) {
                return Some(&self.platform[i]);
            }
            i = i + 1;
        }
        proof {
            assert(self.platform@.skip(n as int) =~= Seq::<RawPlatform>::empty());
        }
        None
    }

    /// Create View of Application
    ///
    /// This calls `view()` on the `application` sub-structure, creating
    /// suitable errors if the path to the sub-structure is missing.
    pub fn view_application(&self) -> (r: Result<ViewApplication, ErrorView>)
        ensures
            r is Ok <==> (self.application matches Some(app) && view_application_ok(app)),
            r matches Ok(v) ==> is_view_of_application(self.application->0, v),
            r matches Err(e) ==> e matches ErrorView::MissingKey(k) && k@ == (match self
                .application {
                None => "application"@,
                Some(app) => view_application_missing(app),
            }),
    {
        match self.application.as_ref() {
            None => Err(ErrorView::MissingKey("application")),
            Some(app) => app.view(),
        }
    }
}

/// Whether the application view can be produced: ID and package are the
/// two required keys.
pub open spec fn view_application_ok(app: RawApplication) -> bool {
    app.id is Some && app.package is Some
}

/// The first missing required application key, scanning `id` before
/// `package`.
pub open spec fn view_application_missing(app: RawApplication) -> Seq<char> {
    if app.id is None {
        ".id"@
    } else {
        ".package"@
    }
}

/// The resolved application name: the configured name, or the
/// application ID where none is given.
pub open spec fn application_name_spec(app: RawApplication) -> Seq<char> {
    match app.name {
        Some(n) => n@,
        None => app.id->0@,
    }
}

/// How a produced application view relates to its raw table: required
/// fields are taken as they are, the name defaults to the ID, the path to
/// `.`, and the symbols are derived from ID and package.
pub open spec fn is_view_of_application(app: RawApplication, v: ViewApplication) -> bool {
    &&& (app.id matches Some(id) && v.id == id)
    &&& v.id_symbol@ == symbolize_spec(app.id->0@)
    &&& v.name@ == application_name_spec(app)
    &&& v.path@ == (match app.path {
        Some(p) => p@,
        None => "."@,
    })
    &&& (app.package matches Some(p) && v.package == p)
    &&& v.package_symbol@ == symbolize_spec(app.package->0@)
}

impl RawApplication {
    /// Create View
    ///
    /// Create a new view of this `RawApplication` instance. This will
    /// pick suitable defaults for missing values and generate variants of
    /// the input values used throughout the code-base.
    pub fn view(&self) -> (r: Result<ViewApplication, ErrorView>)
        ensures
            r is Ok <==> view_application_ok(*self),
            r matches Ok(v) ==> is_view_of_application(*self, v),
            r matches Err(e) ==> e matches ErrorView::MissingKey(k) && k@
                == view_application_missing(*self),
    {
        // The application ID is required. We cannot generate it or create
        // a suitable default. A lot of other symbols depend on it, and we do
        // not provide a filler. The user can do that, if they wish.
        let v_id = match self.id.as_ref() {
            Some(v) => v,
            None => {
                return Err(ErrorView::MissingKey(".id"));
            },
        };
        let v_id_symbol = symbolize(v_id.as_str());

        // Use the application ID as name if none is given.
        let v_name = match self.name.as_ref() {
            Some(v) => v.clone(),
            None => v_id.clone(),
        };

        // The default path to the application is the manifest directory.
        let v_path = match self.path.as_ref() {
            Some(v) => v.clone(),
            None => String::from_str("."),
        };

        // The package name is required to know which Rust package contains
        // the main application entry-point.
        let v_package = match self.package.as_ref() {
            Some(v) => v,
            None => {
                return Err(ErrorView::MissingKey(".package"));
            },
        };
        let v_package_symbol = symbolize(v_package.as_str());

        Ok(
            ViewApplication {
                id: v_id.clone(),
                id_symbol: v_id_symbol,
                name: v_name,
                path: v_path,
                package: v_package.clone(),
                package_symbol: v_package_symbol,
            },
        )
    }
}

/// The application ID resolved for a platform: the platform-level value
/// takes precedence, the manifest's application ID is the fallback.
pub open spec fn resolved_application_id(a: RawPlatformAndroid, raw: Raw) -> Option<String> {
    if a.application_id is Some {
        a.application_id
    } else {
        match raw.application {
            Some(app) => app.id,
            None => None,
        }
    }
}

/// The resolved SDK version triple `(min, target, compile)`: each present
/// field backfills the missing ones in the direction `min`, `target`,
/// `compile`.
pub open spec fn sdk_triple(min: Option<u32>, target: Option<u32>, compile: Option<u32>) -> (
    u32,
    u32,
    u32,
)
    recommends
        min is Some || target is Some || compile is Some,
{
    match (min, target, compile) {
        (Some(m), None, None) => (m, m, m),
        (None, Some(t), None) => (t, t, t),
        (None, None, Some(c)) => (c, c, c),
        (Some(m), Some(t), None) => (m, t, t),
        (Some(m), None, Some(c)) => (m, c, c),
        (None, Some(t), Some(c)) => (t, t, c),
        (Some(m), Some(t), Some(c)) => (m, t, c),
        (None, None, None) => (0, 0, 0),
    }
}

/// The version gate: a manifest whose version is anything but `1` never
/// validates, whatever the rest of its content holds; a version-1
/// manifest validates exactly when every field-level check passes.
/// Together with the contract of [`Manifest::parse_raw`], this says that
/// parsing followed by validation succeeds for precisely the valid
/// version-1 manifests.
pub proof fn lemma_version_gate(raw: Raw)
    ensures
        raw.version != 1 ==> !valid_raw(raw),
        (raw.version == 1 && (raw.application matches Some(app) ==> valid_application(app)) && (
        forall|i: int| 0 <= i < raw.platform@.len() ==> valid_platform(#[trigger] raw.platform@[i])))
            ==> valid_raw(raw),
{
}

/// Resolving an already-resolved SDK triple changes nothing: feeding the
/// three resolved fields back in returns them as they are.
pub proof fn lemma_sdk_triple_idempotent(min: Option<u32>, target: Option<u32>, compile: Option<
    u32,
>)
    requires
        min is Some || target is Some || compile is Some,
    ensures
        ({
            let (m, t, c) = sdk_triple(min, target, compile);
            sdk_triple(Some(m), Some(t), Some(c)) == (m, t, c)
        }),
{
}

/// The resolved SDK triple satisfies `min <= target <= compile` whenever
/// the fields that were given are ordered among themselves; in
/// particular, whenever at most one of them is given. The triple depends
/// only on the three fields, so nothing else of the manifest can disturb
/// it.
pub proof fn lemma_sdk_triple_ordered(min: Option<u32>, target: Option<u32>, compile: Option<u32>)
    requires
        min is Some || target is Some || compile is Some,
        (min is Some && target is Some) ==> min->0 <= target->0,
        (min is Some && compile is Some) ==> min->0 <= compile->0,
        (target is Some && compile is Some) ==> target->0 <= compile->0,
    ensures
        ({
            let (m, t, c) = sdk_triple(min, target, compile);
            m <= t && t <= c
        }),
{
}

/// Whether the Android view can be produced from a platform table and the
/// surrounding manifest.
pub open spec fn view_android_ok(a: RawPlatformAndroid, raw: Raw) -> bool {
    &&& a.namespace is Some
    &&& resolved_application_id(a, raw) is Some
    &&& (a.min_sdk is Some || a.target_sdk is Some || a.compile_sdk is Some)
    &&& a.ndk_level is Some
    &&& a.sdk_path is Some
}

/// The first missing required Android key, in resolution order.
pub open spec fn view_android_missing(a: RawPlatformAndroid, raw: Raw) -> Seq<char> {
    if a.namespace is None {
        ".namespace"@
    } else if resolved_application_id(a, raw) is None {
        ".application-id"@
    } else if a.min_sdk is None && a.target_sdk is None && a.compile_sdk is None {
        ".min-sdk"@
    } else if a.ndk_level is None {
        ".ndk-level"@
    } else {
        ".sdk-path"@
    }
}

/// How a produced Android view relates to its raw table: the SDK triple
/// follows [`sdk_triple`], the version code defaults to `1`, the version
/// name to `0.1.0`, and the remaining fields are taken as they are.
pub open spec fn is_view_of_android(a: RawPlatformAndroid, raw: Raw, v: ViewPlatformAndroid) -> bool {
    &&& (resolved_application_id(a, raw) matches Some(id) && v.application_id == id)
    &&& (a.namespace matches Some(ns) && v.namespace == ns)
    &&& (v.min_sdk, v.target_sdk, v.compile_sdk) == sdk_triple(
        a.min_sdk,
        a.target_sdk,
        a.compile_sdk,
    )
    &&& (a.ndk_level matches Some(n) && v.ndk_level == n)
    &&& v.version_code == (match a.version_code {
        Some(c) => c,
        None => 1u32,
    })
    &&& v.version_name@ == (match a.version_name {
        Some(n) => n@,
        None => "0.1.0"@,
    })
    &&& (a.sdk_path matches Some(p) && v.sdk_path == p)
}

impl RawPlatformAndroid {
    /// Create View
    ///
    /// Create a new view of this `RawPlatformAndroid` instance. This will
    /// pick suitable defaults for missing values.
    pub fn view(&self, raw: &Raw) -> (r: Result<ViewPlatformAndroid, ErrorView>)
        ensures
            r is Ok <==> view_android_ok(*self, *raw),
            r matches Ok(v) ==> is_view_of_android(*self, *raw, v),
            r matches Err(e) ==> e matches ErrorView::MissingKey(k) && k@ == view_android_missing(
                *self,
                *raw,
            ),
    {
        // Java uses reverse-domain paths for all source files. We really need
        // a namespace for the application. We could use placeholders, but
        // those might show up in the final APK, so we want to avoid it.
        let v_namespace = match self.namespace.as_ref() {
            Some(v) => v,
            None => {
                return Err(ErrorView::MissingKey(".namespace"));
            },
        };

        // The application ID identifies the application in the different app
        // stores and must be unique. If not set, it falls back to the base
        // application ID of the manifest.
        let v_application_id = match self.application_id.as_ref() {
            Some(v) => v,
            None => {
                let fallback = match raw.application.as_ref() {
                    Some(app) => app.id.as_ref(),
                    None => None,
                };
                match fallback {
                    Some(v) => v,
                    None => {
                        return Err(ErrorView::MissingKey(".application-id"));
                    },
                }
            },
        };

        // `min-sdk` specifies the minimum SDK version required, `target-sdk`
        // the SDK the application is designed for, and `compile-sdk` the SDK
        // version the build-tools use at compile time. If any of the three is
        // given, we can pick the others, following `min <= target <= compile`.
        let trip: (u32, u32, u32) = match (self.min_sdk, self.target_sdk, self.compile_sdk) {
            (None, None, None) => {
                return Err(ErrorView::MissingKey(".min-sdk"));
            },
            (Some(min), None, None) => (min, min, min),
            (None, Some(tar), None) => (tar, tar, tar),
            (None, None, Some(com)) => (com, com, com),
            (Some(min), Some(tar), None) => (min, tar, tar),
            (Some(min), None, Some(com)) => (min, com, com),
            (None, Some(tar), Some(com)) => (tar, tar, com),
            (Some(min), Some(tar), Some(com)) => (min, tar, com),
        };
        let v_min_sdk = trip.0;
        let v_target_sdk = trip.1;
        let v_compile_sdk = trip.2;

        // We must know the NDK level we build against. While we could pick a
        // suitable default, we really want the caller to decide on a version
        // so they know what they link against.
        let v_ndk_level = match self.ndk_level {
            Some(v) => v,
            None => {
                return Err(ErrorView::MissingKey(".ndk-level"));
            },
        };

        // The version-code is a simple positive integer increased for every
        // new build; the version-name is the human-readable identification
        // of the version. `1` and `0.1.0` are safe default values.
        let v_version_code = match self.version_code {
            Some(v) => v,
            None => 1,
        };
        let v_version_name = match self.version_name.as_ref() {
            Some(v) => v.clone(),
            None => String::from_str("0.1.0"),
        };

        // We require a path to the Android SDK to build the application.
        // There is no way to guess this path, nor are there any suitable
        // defaults.
        let v_sdk_path = match self.sdk_path.as_ref() {
            Some(v) => v,
            None => {
                return Err(ErrorView::MissingKey(".sdk-path"));
            },
        };

        Ok(
            ViewPlatformAndroid {
                application_id: v_application_id.clone(),
                namespace: v_namespace.clone(),
                compile_sdk: v_compile_sdk,
                min_sdk: v_min_sdk,
                target_sdk: v_target_sdk,
                ndk_level: v_ndk_level,
                version_code: v_version_code,
                version_name: v_version_name,
                sdk_path: v_sdk_path.clone(),
            },
        )
    }
}

/// An optional string field: absent, or present with string type; any
/// other type is a decode error.
pub open spec fn decode_opt_string_spec(t: Seq<(String, Node)>, key: Seq<char>) -> Result<
    Option<String>,
    (),
> {
    match table_get_spec(t, key) {
        None => Ok(None),
        Some(Node::Text(s)) => Ok(Some(s)),
        Some(_) => Err(()),
    }
}

/// An optional integer field that must fit `u32`: absent, or present with
/// integer type and in range; anything else is a decode error.
pub open spec fn decode_opt_u32_spec(t: Seq<(String, Node)>, key: Seq<char>) -> Result<
    Option<u32>,
    (),
> {
    match table_get_spec(t, key) {
        None => Ok(None),
        Some(Node::Integer(i)) => if 0 <= i && i <= u32::MAX {
            Ok(Some(i as u32))
        } else {
            Err(())
        },
        Some(_) => Err(()),
    }
}

fn decode_opt_string(t: &Vec<(String, Node)>, key: &str) -> (r: Result<Option<String>, ()>)
    ensures
        r == decode_opt_string_spec(t@, key@),
{
    match table_get(t, key) {
        None => Ok(None),
        Some(Node::Text(s)) => Ok(Some(s.clone())),
        Some(_) => Err(()),
    }
}

fn decode_opt_u32(t: &Vec<(String, Node)>, key: &str) -> (r: Result<Option<u32>, ()>)
    ensures
        r == decode_opt_u32_spec(t@, key@),
{
    match table_get(t, key) {
        None => Ok(None),
        Some(Node::Integer(i)) => {
            let i = *i;
            if 0 <= i && i <= u32::MAX as i64 {
                Ok(Some(i as u32))
            } else {
                Err(())
            }
        },
        Some(_) => Err(()),
    }
}

/// The application table decoded field by field; every field is optional.
pub open spec fn decode_application_spec(t: Seq<(String, Node)>) -> Result<RawApplication, ()> {
    let id = decode_opt_string_spec(t, "id"@);
    let name = decode_opt_string_spec(t, "name"@);
    let path = decode_opt_string_spec(t, "path"@);
    let package = decode_opt_string_spec(t, "package"@);
    if id is Err || name is Err || path is Err || package is Err {
        Err(())
    } else {
        Ok(
            RawApplication {
                id: id->Ok_0,
                name: name->Ok_0,
                path: path->Ok_0,
                package: package->Ok_0,
            },
        )
    }
}

fn decode_application(t: &Vec<(String, Node)>) -> (r: Result<RawApplication, ()>)
    ensures
        r == decode_application_spec(t@),
{
    let id = match decode_opt_string(t, "id") {
        Ok(v) => v,
        Err(_) => {
            return Err(());
        },
    };
    let name = match decode_opt_string(t, "name") {
        Ok(v) => v,
        Err(_) => {
            return Err(());
        },
    };
    let path = match decode_opt_string(t, "path") {
        Ok(v) => v,
        Err(_) => {
            return Err(());
        },
    };
    let package = match decode_opt_string(t, "package") {
        Ok(v) => v,
        Err(_) => {
            return Err(());
        },
    };
    Ok(RawApplication { id, name, path, package })
}

/// The Android platform table decoded field by field; keys are written in
/// kebab-case in the document.
pub open spec fn decode_android_spec(t: Seq<(String, Node)>) -> Result<RawPlatformAndroid, ()> {
    let application_id = decode_opt_string_spec(t, "application-id"@);
    let namespace = decode_opt_string_spec(t, "namespace"@);
    let compile_sdk = decode_opt_u32_spec(t, "compile-sdk"@);
    let min_sdk = decode_opt_u32_spec(t, "min-sdk"@);
    let target_sdk = decode_opt_u32_spec(t, "target-sdk"@);
    let ndk_level = decode_opt_u32_spec(t, "ndk-level"@);
    let version_code = decode_opt_u32_spec(t, "version-code"@);
    let version_name = decode_opt_string_spec(t, "version-name"@);
    let sdk_path = decode_opt_string_spec(t, "sdk-path"@);
    if application_id is Err || namespace is Err || compile_sdk is Err || min_sdk is Err
        || target_sdk is Err || ndk_level is Err || version_code is Err || version_name is Err
        || sdk_path is Err {
        Err(())
    } else {
        Ok(
            RawPlatformAndroid {
                application_id: application_id->Ok_0,
                namespace: namespace->Ok_0,
                compile_sdk: compile_sdk->Ok_0,
                min_sdk: min_sdk->Ok_0,
                target_sdk: target_sdk->Ok_0,
                ndk_level: ndk_level->Ok_0,
                version_code: version_code->Ok_0,
                version_name: version_name->Ok_0,
                sdk_path: sdk_path->Ok_0,
            },
        )
    }
}

fn decode_android(t: &Vec<(String, Node)>) -> (r: Result<RawPlatformAndroid, ()>)
    ensures
        r == decode_android_spec(t@),
{
    let application_id = match decode_opt_string(t, "application-id") {
        Ok(v) => v,
        Err(_) => {
            return Err(());
        },
    };
    let namespace = match decode_opt_string(t, "namespace") {
        Ok(v) => v,
        Err(_) => {
            return Err(());
        },
    };
    let compile_sdk = match decode_opt_u32(t, "compile-sdk") {
        Ok(v) => v,
        Err(_) => {
            return Err(());
        },
    };
    let min_sdk = match decode_opt_u32(t, "min-sdk") {
        Ok(v) => v,
        Err(_) => {
            return Err(());
        },
    };
    let target_sdk = match decode_opt_u32(t, "target-sdk") {
        Ok(v) => v,
        Err(_) => {
            return Err(());
        },
    };
    let ndk_level = match decode_opt_u32(t, "ndk-level") {
        Ok(v) => v,
        Err(_) => {
            return Err(());
        },
    };
    let version_code = match decode_opt_u32(t, "version-code") {
        Ok(v) => v,
        Err(_) => {
            return Err(());
        },
    };
    let version_name = match decode_opt_string(t, "version-name") {
        Ok(v) => v,
        Err(_) => {
            return Err(());
        },
    };
    let sdk_path = match decode_opt_string(t, "sdk-path") {
        Ok(v) => v,
        Err(_) => {
            return Err(());
        },
    };
    Ok(
        RawPlatformAndroid {
            application_id,
            namespace,
            compile_sdk,
            min_sdk,
            target_sdk,
            ndk_level,
            version_code,
            version_name,
            sdk_path,
        },
    )
}

/// One platform entry: a required `id` string, an optional `path`, and an
/// optional flattened `android` configuration table.
pub open spec fn decode_platform_spec(t: Seq<(String, Node)>) -> Result<RawPlatform, ()> {
    let id = match table_get_spec(t, "id"@) {
        Some(Node::Text(s)) => Ok(s),
        Some(_) => Err(()),
        None => Err(()),
    };
    let path = decode_opt_string_spec(t, "path"@);
    let configuration = match table_get_spec(t, "android"@) {
        None => Ok(None),
        Some(Node::Table(entries)) => match decode_android_spec(entries@) {
            Ok(a) => Ok(Some(RawPlatformConfiguration::Android(a))),
            Err(_) => Err(()),
        },
        Some(_) => Err(()),
    };
    if id is Err || path is Err || configuration is Err {
        Err(())
    } else {
        Ok(RawPlatform { id: id->Ok_0, path: path->Ok_0, configuration: configuration->Ok_0 })
    }
}

fn decode_platform(t: &Vec<(String, Node)>) -> (r: Result<RawPlatform, ()>)
    ensures
        r == decode_platform_spec(t@),
{
    let id = match table_get(t, "id") {
        Some(Node::Text(s)) => s.clone(),
        Some(_) => {
            return Err(());
        },
        None => {
            return Err(());
        },
    };
    let path = match decode_opt_string(t, "path") {
        Ok(v) => v,
        Err(_) => {
            return Err(());
        },
    };
    let configuration = match table_get(t, "android") {
        None => None,
        Some(Node::Table(entries)) => match decode_android(entries) {
            Ok(a) => Some(RawPlatformConfiguration::Android(a)),
            Err(_) => {
                return Err(());
            },
        },
        Some(_) => {
            return Err(());
        },
    };
    Ok(RawPlatform { id, path, configuration })
}

/// The platform array: every element must be a table that decodes to a
/// platform entry; order is kept.
pub open spec fn decode_platforms_spec(items: Seq<Node>) -> Result<Seq<RawPlatform>, ()>
    decreases items.len(),
{
    if items.len() == 0 {
        Ok(Seq::<RawPlatform>::empty())
    } else {
        let init = decode_platforms_spec(items.drop_last());
        let last = match items.last() {
            Node::Table(entries) => decode_platform_spec(entries@),
            _ => Err(()),
        };
        match (init, last) {
            (Ok(s), Ok(p)) => Ok(s.push(p)),
            _ => Err(()),
        }
    }
}

proof fn lemma_decode_platforms_err_prefix(items: Seq<Node>, i: int)
    requires
        0 <= i <= items.len(),
        decode_platforms_spec(items.take(i)) is Err,
    ensures
        decode_platforms_spec(items) is Err,
    decreases items.len() - i,
{
    if i < items.len() {
        assert(items.take(i + 1).drop_last() =~= items.take(i));
        lemma_decode_platforms_err_prefix(items, i + 1);
    } else {
        assert(items.take(i) =~= items);
    }
}

fn decode_platforms(items: &Vec<Node>) -> (r: Result<Vec<RawPlatform>, ()>)
    ensures
        (match r {
            Ok(v) => decode_platforms_spec(items@) == Ok::<_, ()>(v@),
            Err(_) => decode_platforms_spec(items@) is Err,
        }),
{
    let n = items.len();
    let mut acc: Vec<RawPlatform> = Vec::new();
    proof {
        assert(items@.take(0) =~= Seq::<Node>::empty());
    }
    let mut i: usize = 0;
    while i < n
        invariant
            i <= n,
            n == items@.len(),
            decode_platforms_spec(items@.take(i as int)) == Ok::<_, ()>(acc@),
        decreases n - i,
    {
        proof {
            assert(items@.take(i as int + 1).drop_last() =~= items@.take(i as int));
            assert(items@.take(i as int + 1).last() == items@[i as int]);
        }
        let p = match &items[i] {
            Node::Table(entries) => match decode_platform(entries) {
                Ok(p) => p,
                Err(_) => {
                    proof {
                        lemma_decode_platforms_err_prefix(items@, i as int + 1);
                    }
                    return Err(());
                },
            },
            _ => {
                proof {
                    lemma_decode_platforms_err_prefix(items@, i as int + 1);
                }
                return Err(());
            },
        };
        acc.push(p);
        i = i + 1;
    }
    proof {
        assert(items@.take(n as int) =~= items@);
    }
    Ok(acc)
}

/// The decoded pieces of a raw manifest: version, application table, and
/// platform list. The version gate is not applied here; a type mismatch
/// or a missing version is a decode error.
pub open spec fn decode_raw_parts(doc: Node) -> Result<
    (u32, Option<RawApplication>, Seq<RawPlatform>),
    (),
> {
    match doc {
        Node::Table(entries) => {
            let t = entries@;
            let version = match table_get_spec(t, "version"@) {
                Some(Node::Integer(i)) => if 0 <= i && i <= u32::MAX {
                    Ok(i as u32)
                } else {
                    Err(())
                },
                Some(_) => Err(()),
                None => Err(()),
            };
            let application = match table_get_spec(t, "application"@) {
                None => Ok(None),
                Some(Node::Table(at)) => match decode_application_spec(at@) {
                    Ok(a) => Ok(Some(a)),
                    Err(_) => Err(()),
                },
                Some(_) => Err(()),
            };
            let platforms = match table_get_spec(t, "platform"@) {
                None => Ok(Seq::<RawPlatform>::empty()),
                Some(Node::Array(items)) => decode_platforms_spec(items@),
                Some(_) => Err(()),
            };
            match (version, application, platforms) {
                (Ok(v), Ok(a), Ok(p)) => Ok((v, a, p)),
                _ => Err(()),
            }
        },
        _ => Err(()),
    }
}

impl Raw {
    /// Decode the raw manifest from a parsed document tree.
    fn parse_document(doc: &Node) -> (r: Result<Raw, ()>)
        ensures
            (match r {
                Ok(raw) => decode_raw_parts(*doc) == Ok::<_, ()>(
                    (raw.version, raw.application, raw.platform@),
                ),
                Err(_) => decode_raw_parts(*doc) is Err,
            }),
    {
        let entries = match doc {
            Node::Table(entries) => entries,
            _ => {
                return Err(());
            },
        };
        let version = match table_get(entries, "version") {
            Some(Node::Integer(i)) => {
                let i = *i;
                if 0 <= i && i <= u32::MAX as i64 {
                    i as u32
                } else {
                    return Err(());
                }
            },
            Some(_) => {
                return Err(());
            },
            None => {
                return Err(());
            },
        };
        let application = match table_get(entries, "application") {
            None => None,
            Some(Node::Table(at)) => match decode_application(at) {
                Ok(a) => Some(a),
                Err(_) => {
                    return Err(());
                },
            },
            Some(_) => {
                return Err(());
            },
        };
        let platform = match table_get(entries, "platform") {
            None => Vec::new(),
            Some(Node::Array(items)) => match decode_platforms(items) {
                Ok(v) => v,
                Err(_) => {
                    return Err(());
                },
            },
            Some(_) => {
                return Err(());
            },
        };
        Ok(Raw { version, application, platform })
    }

    /// Parse a raw manifest from a string in TOML representation. Only
    /// syntactic correctness and field types are checked; semantic
    /// correctness is left to [`Manifest::parse_raw`].
    pub fn parse_str(content: &str) -> (r: Result<Raw, ()>)
        ensures
            (match toml_of(content@) {
                None => r is Err,
                Some(doc) => match r {
                    Ok(raw) => decode_raw_parts(doc) == Ok::<_, ()>(
                        (raw.version, raw.application, raw.platform@),
                    ),
                    Err(_) => decode_raw_parts(doc) is Err,
                },
            }),
    {
        match crate::document::parse_toml(content) {
            None => Err(()),
            Some(doc) => Self::parse_document(&doc),
        }
    }
}

fn safe_path(s: &str) -> (r: bool)
    ensures
        r == safe_path_spec(s@),
{
    let len = s.unicode_len();
    let mut i: usize = 0;
    while i < len
        invariant
            i <= len,
            len == s@.len(),
            forall|j: int| 0 <= j < i ==> !char_is_control(s@[j]) && s@[j] != '\n',
        decreases len - i,
    {
        let c = s.get_char(i);
        if is_control(c) || c == '\n' {
            return false;
        }
        i = i + 1;
    }
    true
}

impl Manifest {
    /// Check whether a string is a valid identifier
    ///
    /// This verifies that the given string consists of only alphanumeric
    /// characters plus `-`, `_`. Empty identifiers are rejected.
    ///
    /// Any unicode alpha/numeric character is allowed.
    pub fn is_identifier(s: &str) -> (r: bool)
        ensures
            r == is_identifier_spec(s@),
    {
        let len = s.unicode_len();
        if len == 0 {
            return false;
        }
        let mut i: usize = 0;
        while i < len
            invariant
                i <= len,
                len == s@.len(),
                forall|j: int| 0 <= j < i ==> identifier_char(s@[j]),
            decreases len - i,
        {
            let c = s.get_char(i);
            if !(c.is_alphanumeric() || c == '-' || c == '_') {
                return false;
            }
            i = i + 1;
        }
        true
    }

    /// Check whether a string contains no quotes or escapes
    ///
    /// This verifies that a string does not contain quotes or backslashes,
    /// nor any control characters. We use this as a simple way to guarantee
    /// that the strings can be interpolated into a wide range of
    /// configuration languages.
    pub fn is_quotable(s: &str) -> (r: bool)
        ensures
            r == is_quotable_spec(s@),
    {
        let len = s.unicode_len();
        let mut i: usize = 0;
        while i < len
            invariant
                i <= len,
                len == s@.len(),
                forall|j: int| 0 <= j < i ==> quotable_char(s@[j]),
            decreases len - i,
        {
            let c = s.get_char(i);
            if is_control(c) || c == '\\' || c == '\'' || c == '"' {
                return false;
            }
            i = i + 1;
        }
        true
    }

    /// Parse manifest from raw
    ///
    /// Take a raw representation of the manifest and perform post-parsing
    /// validation, ensuring the final manifest will not contain invalid
    /// entries.
    pub fn parse_raw(raw: Raw) -> (r: Result<Manifest, ()>)
        ensures
            r matches Ok(m) ==> m.raw == raw,
            r is Ok <==> valid_raw(raw),
    {
        // We only support version '1'. Any other version number is explicitly
        // defined to be incompatible, so fail parsing.
        //
        // Note that we do support unknown-fields. Hence, it is valid to add
        // more fields to version '1' without breaking backwards
        // compatibility. However, they will be silently ignored by older
        // implementations.
        if raw.version != 1 {
            return Err(());
        }
        if let Some(application) = raw.application.as_ref() {
            // Verify that the application ID, if provided, is a valid
            // identifier. The allowed character-set is alphanumeric plus
            // `-`, `_`. Empty identifiers are not allowed.
            if let Some(v) = application.id.as_ref() {
                if !Self::is_identifier(v.as_str()) {
                    return Err(());
                }
            }
            // Verify that the application name does not contain quotes or
            // backslashes, to avoid having to escape it in configuration.
            if let Some(v) = application.name.as_ref() {
                if !Self::is_quotable(v.as_str()) {
                    return Err(());
                }
            }
        }
        let n = raw.platform.len();
        let mut i: usize = 0;
        while i < n
            invariant
                i <= n,
                n == raw.platform@.len(),
                forall|j: int| 0 <= j < i ==> valid_platform(#[trigger] raw.platform@[j]),
            decreases n - i,
        {
            if let Some(android) = raw.platform[i].android() {
                // Ensure application IDs can be put in quotes.
                if let Some(v) = android.application_id.as_ref() {
                    if !Self::is_quotable(v.as_str()) {
                        return Err(());
                    }
                }
                // Ensure namespaces can be put in quotes.
                if let Some(v) = android.namespace.as_ref() {
                    if !Self::is_quotable(v.as_str()) {
                        return Err(());
                    }
                }
                // Ensure version names can be put in quotes.
                if let Some(v) = android.version_name.as_ref() {
                    if !Self::is_quotable(v.as_str()) {
                        return Err(());
                    }
                }
                // Verify that the SDK path does not contain new-lines nor
                // control characters.
                if let Some(sdk_path) = android.sdk_path.as_ref() {
                    if !safe_path(sdk_path.as_str()) {
                        return Err(());
                    }
                }
            }
            i = i + 1;
        }
        Ok(Manifest { raw })
    }

    /// Parse manifest from string
    ///
    /// Parse the given string as a literal manifest in TOML representation.
    /// Content is verified and invalid manifests are refused.
    pub fn parse_str(content: &str) -> (r: Result<Manifest, ()>)
        ensures
            (match toml_of(content@) {
                None => r is Err,
                Some(doc) => {
                    &&& (r is Ok <==> (decode_raw_parts(doc) matches Ok(parts) && valid_parts(
                        parts.0,
                        parts.1,
                        parts.2,
                    )))
                    &&& (r matches Ok(m) ==> decode_raw_parts(doc) == Ok::<_, ()>(
                        (m.raw.version, m.raw.application, m.raw.platform@),
                    ) && valid_raw(m.raw))
                },
            }),
    {
        match Raw::parse_str(content) {
            Err(_) => Err(()),
            Ok(raw) => Self::parse_raw(raw),
        }
    }
}

} // verus!
