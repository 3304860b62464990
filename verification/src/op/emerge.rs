//! Persistent Platform Integration
//!
//! The `emerge` operation renders platform integration as a plan of file
//! operations: directories to ensure, files to write under a
//! content-diffed update policy, and files to remove. A thin runner
//! applies the plan to persistent storage. Computing the plan up front
//! keeps every rule of the operation — the directory gate, the fixed file
//! sequence, and the rendered content — inside verified code.

use vstd::prelude::*;

use crate::manifest::ErrorView;
use crate::manifest::Manifest;
use crate::manifest::RawPlatform;
use crate::manifest::RawPlatformAndroid;
use crate::manifest::RawPlatformConfiguration;
use crate::manifest::view_application_ok;
use crate::manifest::view_application_missing;
use crate::manifest::view_android_ok;
use crate::manifest::view_android_missing;

verus! {

/// Emerge Errors
///
/// This is the exhaustive list of possible errors raised by the emerge
/// operation. Errors that can only arise while a plan is applied to the
/// file system (directory creation, file update, file removal) carry the
/// offending path; the runner constructs them.
#[derive(Debug)]
pub enum Error {
    /// Platform integration is already present and updating was not
    /// allowed by the caller.
    Already,
    /// Specified key required but missing in manifest.
    ManifestKey(&'static str),
    /// Cannot access the specified platform directory.
    PlatformDirectory(String),
    /// Creation of the directory at the specified path failed.
    DirectoryCreation(String),
    /// Updating the file at the specified path failed.
    FileUpdate(String),
    /// Removing the file at the specified path failed.
    FileRemoval(String),
}

impl Error {
    /// Map a view-generation error onto the emerge error set.
    pub fn from_manifest_error_view(error: ErrorView) -> (r: Self)
        ensures
            error matches ErrorView::MissingKey(k0) && r matches Error::ManifestKey(k1) && k1
                == k0,
    {
        match error {
            ErrorView::MissingKey(v) => Self::ManifestKey(v),
        }
    }
}

/// One step of an emission plan, relative to the working directory.
#[derive(Debug)]
pub enum Op {
    /// Make sure the directory at the path exists, parents included.
    Dir(String),
    /// Write the content to the file at the path, but only if the file
    /// does not already hold exactly that content.
    Write(String, String),
    /// Remove the file at the path if it exists.
    Remove(String),
}

/// An ordered sequence of file operations.
#[derive(Debug)]
pub struct Plan {
    pub ops: Vec<Op>,
}

/// What the runner observed at the target directory path before the
/// operation.
#[derive(Clone, Copy, Debug)]
pub enum DirectoryStatus {
    /// Nothing exists at the path.
    Missing,
    /// The path names an existing directory.
    IsDirectory,
    /// The path exists but is not a directory.
    NotDirectory,
    /// The path could not be inspected.
    Inaccessible,
}

/// The op is a content-diffed write of `content` to `path`.
pub open spec fn is_write_op(op: Op, path: Seq<char>, content: Seq<char>) -> bool {
    op matches Op::Write(p, c) && p@ == path && c@ == content
}

/// The op ensures the directory at `path`.
pub open spec fn is_dir_op(op: Op, path: Seq<char>) -> bool {
    op matches Op::Dir(p) && p@ == path
}

/// A model of the file-system region a plan works on: file contents,
/// modification stamps, and the set of directories.
pub struct FsModel {
    pub files: Map<Seq<char>, Seq<char>>,
    pub mtimes: Map<Seq<char>, nat>,
    pub dirs: Set<Seq<char>>,
}

/// The effect of one plan step on the file-system model, at stamp `t`:
/// a write changes the file — and its modification stamp — only when the
/// content differs, exactly as the runner's content-diffed update does.
pub open spec fn apply_op(fs: FsModel, op: Op, t: nat) -> FsModel {
    match op {
        Op::Dir(p) => FsModel { files: fs.files, mtimes: fs.mtimes, dirs: fs.dirs.insert(p@) },
        Op::Write(p, c) => {
            if fs.files.contains_key(p@) && fs.files[p@] == c@ {
                fs
            } else {
                FsModel {
                    files: fs.files.insert(p@, c@),
                    mtimes: fs.mtimes.insert(p@, t),
                    dirs: fs.dirs,
                }
            }
        },
        Op::Remove(p) => {
            if fs.files.contains_key(p@) {
                FsModel {
                    files: fs.files.remove(p@),
                    mtimes: fs.mtimes.remove(p@),
                    dirs: fs.dirs,
                }
            } else {
                fs
            }
        },
    }
}

/// The effect of a whole plan, applied in order, all at stamp `t`.
pub open spec fn apply_plan(fs: FsModel, ops: Seq<Op>, t: nat) -> FsModel
    decreases ops.len(),
{
    if ops.len() == 0 {
        fs
    } else {
        apply_plan(apply_op(fs, ops[0], t), ops.drop_first(), t)
    }
}

/// The step works on the file at `p`: it is a write or a removal there.
pub open spec fn op_touches(op: Op, p: Seq<char>) -> bool {
    match op {
        Op::Dir(_) => false,
        Op::Write(q, _) => q@ == p,
        Op::Remove(q) => q@ == p,
    }
}

/// Some step of the plan works on the file at `p`.
pub open spec fn touches(ops: Seq<Op>, p: Seq<char>) -> bool {
    exists|i: int| 0 <= i < ops.len() && op_touches(#[trigger] ops[i], p)
}

/// Content-diffed write, unchanged content: writing content a file
/// already holds is a no-op — the file keeps its modification stamp.
pub proof fn lemma_write_unchanged_content(fs: FsModel, p: String, c: String, t: nat)
    requires
        fs.files.contains_key(p@),
        fs.files[p@] == c@,
    ensures
        apply_op(fs, Op::Write(p, c), t) == fs,
{
}

/// Content-diffed write, changed content: writing different content — or
/// writing a file that does not exist — stores the content and stamps the
/// file with the write's time.
pub proof fn lemma_write_changed_content(fs: FsModel, p: String, c: String, t: nat)
    requires
        !(fs.files.contains_key(p@) && fs.files[p@] == c@),
    ensures
        apply_op(fs, Op::Write(p, c), t).files[p@] == c@,
        apply_op(fs, Op::Write(p, c), t).mtimes[p@] == t,
{
}

/// A plan that never works on the file at `p` leaves that file — its
/// existence and its content — exactly as it was.
pub proof fn lemma_apply_plan_untouched(fs: FsModel, ops: Seq<Op>, t: nat, p: Seq<char>)
    requires
        !touches(ops, p),
    ensures
        apply_plan(fs, ops, t).files.contains_key(p) == fs.files.contains_key(p),
        fs.files.contains_key(p) ==> apply_plan(fs, ops, t).files[p] == fs.files[p],
    decreases ops.len(),
{
    if ops.len() > 0 {
        assert(!op_touches(ops[0], p));
        let fs1 = apply_op(fs, ops[0], t);
        assert(!touches(ops.drop_first(), p)) by {
            if touches(ops.drop_first(), p) {
                let i = choose|i: int|
                    0 <= i < ops.drop_first().len() && op_touches(ops.drop_first()[i], p);
                assert(ops.drop_first()[i] == ops[i + 1]);
                assert(op_touches(ops[i + 1], p));
            }
        };
        lemma_apply_plan_untouched(fs1, ops.drop_first(), t, p);
    }
}

/// Once a plan works on the file at `p`, the file's final state depends
/// on the plan alone: whatever was there before, and whenever the plan
/// runs, the file ends up existing in the same way with the same content.
pub proof fn lemma_apply_plan_touched(
    fs1: FsModel,
    fs2: FsModel,
    ops: Seq<Op>,
    t1: nat,
    t2: nat,
    p: Seq<char>,
)
    requires
        touches(ops, p),
    ensures
        apply_plan(fs1, ops, t1).files.contains_key(p) == apply_plan(
            fs2,
            ops,
            t2,
        ).files.contains_key(p),
        apply_plan(fs1, ops, t1).files.contains_key(p) ==> apply_plan(fs1, ops, t1).files[p]
            == apply_plan(fs2, ops, t2).files[p],
    decreases ops.len(),
{
    let g1 = apply_op(fs1, ops[0], t1);
    let g2 = apply_op(fs2, ops[0], t2);
    if touches(ops.drop_first(), p) {
        lemma_apply_plan_touched(g1, g2, ops.drop_first(), t1, t2, p);
    } else {
        let i = choose|i: int| 0 <= i < ops.len() && op_touches(#[trigger] ops[i], p);
        if i > 0 {
            assert(ops.drop_first()[i - 1] == ops[i]);
            assert(touches(ops.drop_first(), p));
        }
        assert(op_touches(ops[0], p));
        lemma_apply_plan_untouched(g1, ops.drop_first(), t1, p);
        lemma_apply_plan_untouched(g2, ops.drop_first(), t2, p);
    }
}

/// Emission idempotence: applying a plan a second time, at any later
/// stamp and over whatever the first application left behind, changes no
/// file's existence or content.
pub proof fn lemma_plan_idempotent_contents(fs: FsModel, ops: Seq<Op>, t1: nat, t2: nat)
    ensures
        apply_plan(apply_plan(fs, ops, t1), ops, t2).files =~= apply_plan(fs, ops, t1).files,
{
    let s1 = apply_plan(fs, ops, t1);
    let s2 = apply_plan(s1, ops, t2);
    assert forall|p: Seq<char>| s2.files.dom().contains(p) == s1.files.dom().contains(p) by {
        if touches(ops, p) {
            lemma_apply_plan_touched(s1, fs, ops, t2, t1, p);
        } else {
            lemma_apply_plan_untouched(s1, ops, t2, p);
        }
    }
    assert forall|p: Seq<char>| s1.files.dom().contains(p) implies s2.files[p] == s1.files[p] by {
        if touches(ops, p) {
            lemma_apply_plan_touched(s1, fs, ops, t2, t1, p);
        } else {
            lemma_apply_plan_untouched(s1, ops, t2, p);
        }
    }
    assert(s2.files.dom() =~= s1.files.dom());
    assert(s2.files =~= s1.files);
}

/// No step of the plan removes a file.
pub open spec fn no_removes(ops: Seq<Op>) -> bool {
    forall|i: int| 0 <= i < ops.len() ==> !((#[trigger] ops[i]) is Remove)
}

/// Two steps do not contradict each other: where both write the same
/// path, they write the same content.
pub open spec fn write_agree(a: Op, b: Op) -> bool {
    match (a, b) {
        (Op::Write(p1, c1), Op::Write(p2, c2)) => p1@ == p2@ ==> c1@ == c2@,
        _ => true,
    }
}

/// All writes of the plan agree: no two of them put different content at
/// the same path.
pub open spec fn writes_consistent(ops: Seq<Op>) -> bool {
    forall|i: int, j: int|
        0 <= i < ops.len() && 0 <= j < ops.len() ==> write_agree(
            #[trigger] ops[i],
            #[trigger] ops[j],
        )
}

/// The step's effect is already present in `fs`, so applying it changes
/// nothing.
pub open spec fn op_satisfied(fs: FsModel, op: Op) -> bool {
    match op {
        Op::Dir(p) => fs.dirs.contains(p@),
        Op::Write(p, c) => fs.files.contains_key(p@) && fs.files[p@] == c@,
        Op::Remove(p) => !fs.files.contains_key(p@),
    }
}

/// A plan whose every step is already satisfied changes nothing at all —
/// not even a modification stamp.
pub proof fn lemma_plan_noop(fs: FsModel, ops: Seq<Op>, t: nat)
    requires
        forall|i: int| 0 <= i < ops.len() ==> op_satisfied(fs, #[trigger] ops[i]),
    ensures
        apply_plan(fs, ops, t) == fs,
    decreases ops.len(),
{
    if ops.len() > 0 {
        assert(op_satisfied(fs, ops[0]));
        match ops[0] {
            Op::Dir(p) => {
                assert(fs.dirs.insert(p@) =~= fs.dirs);
                assert(apply_op(fs, ops[0], t) == fs);
            },
            Op::Write(_, _) => {},
            Op::Remove(_) => {},
        }
        assert(forall|i: int|
            0 <= i < ops.drop_first().len() ==> op_satisfied(
                fs,
                #[trigger] ops.drop_first()[i],
            )) by {
            assert(forall|i: int|
                0 <= i < ops.drop_first().len() ==> ops.drop_first()[i] == ops[i + 1]);
        }
        lemma_plan_noop(fs, ops.drop_first(), t);
    }
}

/// Directories only accumulate: whatever directory a plan run finds, it
/// leaves.
pub proof fn lemma_plan_dirs_monotone(fs: FsModel, ops: Seq<Op>, t: nat, d: Seq<char>)
    requires
        fs.dirs.contains(d),
    ensures
        apply_plan(fs, ops, t).dirs.contains(d),
    decreases ops.len(),
{
    if ops.len() > 0 {
        lemma_plan_dirs_monotone(apply_op(fs, ops[0], t), ops.drop_first(), t, d);
    }
}

/// After a plan runs, every directory step of it is satisfied.
pub proof fn lemma_plan_establishes_dir(fs: FsModel, ops: Seq<Op>, t: nat, i: int, p: String)
    requires
        0 <= i < ops.len(),
        ops[i] == Op::Dir(p),
    ensures
        apply_plan(fs, ops, t).dirs.contains(p@),
    decreases ops.len(),
{
    let fs1 = apply_op(fs, ops[0], t);
    if i == 0 {
        lemma_plan_dirs_monotone(fs1, ops.drop_first(), t, p@);
    } else {
        assert(ops.drop_first()[i - 1] == ops[i]);
        lemma_plan_establishes_dir(fs1, ops.drop_first(), t, i - 1, p);
    }
}

/// After a plan without removals and with agreeing writes runs, every
/// write step of it is satisfied: the file exists and holds the written
/// content.
pub proof fn lemma_plan_establishes_write(
    fs: FsModel,
    ops: Seq<Op>,
    t: nat,
    i: int,
    p: String,
    c: String,
)
    requires
        no_removes(ops),
        writes_consistent(ops),
        0 <= i < ops.len(),
        ops[i] == Op::Write(p, c),
    ensures
        apply_plan(fs, ops, t).files.contains_key(p@),
        apply_plan(fs, ops, t).files[p@] == c@,
    decreases ops.len(),
{
    let fs1 = apply_op(fs, ops[0], t);
    let rest = ops.drop_first();
    assert(forall|k: int| 0 <= k < rest.len() ==> rest[k] == ops[k + 1]);
    assert(no_removes(rest));
    assert(writes_consistent(rest)) by {
        assert(forall|k: int, l: int|
            0 <= k < rest.len() && 0 <= l < rest.len() ==> write_agree(
                #[trigger] rest[k],
                #[trigger] rest[l],
            )) by {
            assert(forall|k: int, l: int|
                0 <= k < rest.len() && 0 <= l < rest.len() ==> write_agree(
                    #[trigger] ops[k + 1],
                    #[trigger] ops[l + 1],
                ));
        }
    }
    if i == 0 {
        assert(fs1.files.contains_key(p@) && fs1.files[p@] == c@);
        if touches(rest, p@) {
            let j = choose|j: int| 0 <= j < rest.len() && op_touches(#[trigger] rest[j], p@);
            match rest[j] {
                Op::Write(p2, c2) => {
                    assert(write_agree(ops[0], ops[j + 1]));
                    assert(c2@ == c@);
                    lemma_plan_establishes_write(fs1, rest, t, j, p2, c2);
                },
                Op::Dir(_) => {
                    assert(false);
                },
                Op::Remove(_) => {
                    assert(!(rest[j] is Remove));
                    assert(false);
                },
            }
        } else {
            lemma_apply_plan_untouched(fs1, rest, t, p@);
        }
    } else {
        assert(rest[i - 1] == ops[i]);
        lemma_plan_establishes_write(fs1, rest, t, i - 1, p, c);
    }
}

/// Strong emission idempotence: a plan that removes nothing and whose
/// writes agree is a complete no-op the second time it runs — contents,
/// directories, and modification stamps all stay exactly as the first
/// run left them.
pub proof fn lemma_plan_idempotent(fs: FsModel, ops: Seq<Op>, t1: nat, t2: nat)
    requires
        no_removes(ops),
        writes_consistent(ops),
    ensures
        apply_plan(apply_plan(fs, ops, t1), ops, t2) == apply_plan(fs, ops, t1),
{
    let s1 = apply_plan(fs, ops, t1);
    assert forall|i: int| 0 <= i < ops.len() implies op_satisfied(s1, #[trigger] ops[i]) by {
        match ops[i] {
            Op::Dir(p) => {
                lemma_plan_establishes_dir(fs, ops, t1, i, p);
            },
            Op::Write(p, c) => {
                lemma_plan_establishes_write(fs, ops, t1, i, p, c);
            },
            Op::Remove(_) => {
                assert(false);
            },
        }
    }
    lemma_plan_noop(s1, ops, t2);
}

/// Join a directory and an entry name with `/`; an empty directory part
/// stands for the working directory itself.
pub open spec fn join_spec(dir: Seq<char>, name: Seq<char>) -> Seq<char> {
    if dir.len() == 0 {
        name
    } else {
        dir + "/"@ + name
    }
}

/// Joining through an intermediate directory is the same as joining the
/// flattened relative path.
pub proof fn lemma_join_flatten(d: Seq<char>, a: Seq<char>, b: Seq<char>)
    requires
        a.len() > 0,
    ensures
        join_spec(join_spec(d, a), b) == join_spec(d, a + "/"@ + b),
{
    if d.len() == 0 {
        assert(join_spec(join_spec(d, a), b) =~= join_spec(d, a + "/"@ + b));
    } else {
        assert(join_spec(join_spec(d, a), b) =~= join_spec(d, a + "/"@ + b));
    }
}

/// Joining distinct entry names under one directory gives distinct
/// paths.
pub proof fn lemma_join_distinct(d: Seq<char>, x: Seq<char>, y: Seq<char>)
    requires
        x != y,
    ensures
        join_spec(d, x) != join_spec(d, y),
{
    if join_spec(d, x) == join_spec(d, y) {
        if d.len() > 0 {
            reveal_strlit("/");
            assert(((d + "/"@) + x).len() == ((d + "/"@) + y).len());
            assert(x.len() == y.len());
            assert forall|i: int| 0 <= i < x.len() implies x[i] == y[i] by {
                assert(((d + "/"@) + x)[d.len() + 1 + i] == x[i]);
                assert(((d + "/"@) + y)[d.len() + 1 + i] == y[i]);
            }
            assert(x =~= y);
        }
        assert(false);
    }
}

fn path_join(dir: &str, name: &str) -> (r: String)
    ensures
        r@ == join_spec(dir@, name@),
{
    if dir.unicode_len() == 0 {
        String::from_str(name)
    } else {
        let mut s = String::from_str(dir);
        s.append("/");
        s.append(name);
        s
    }
}

/// A Java-style directory path derived from a dotted namespace: every dot
/// becomes a path separator.
pub open spec fn namespace_path_spec(ns: Seq<char>) -> Seq<char> {
    ns.map_values(|c: char| if c == '.' { '/' } else { c })
}

/// Turn a dotted namespace into the matching source directory path.
pub fn namespace_to_path(ns: &str) -> (r: String)
    ensures
        r@ == namespace_path_spec(ns@),
{
    let len = ns.unicode_len();
    let mut out = String::new();
    proof {
        assert(out@ =~= namespace_path_spec(ns@.take(0)));
    }
    let mut i: usize = 0;
    while i < len
        invariant
            i <= len,
            len == ns@.len(),
            out@ == namespace_path_spec(ns@.take(i as int)),
        decreases len - i,
    {
        let c = ns.get_char(i);
        let mapped = if c == '.' {
            '/'
        } else {
            c
        };
        crate::util::push_char(&mut out, mapped);
        proof {
            assert(namespace_path_spec(ns@.take(i as int + 1)) =~= namespace_path_spec(
                ns@.take(i as int),
            ).push(mapped));
        }
        i = i + 1;
    }
    proof {
        assert(ns@.take(len as int) =~= ns@);
    }
    out
}

/// The escaped form of one character in XML PCDATA position.
pub open spec fn escape_char(c: char) -> Seq<char> {
    if c == '&' {
        "&amp;"@
    } else if c == '<' {
        "&lt;"@
    } else {
        seq![c]
    }
}

/// The escaped form of a string in XML PCDATA position: `&` becomes
/// `&amp;` and `<` becomes `&lt;`.
pub open spec fn escape_xml_pcdata_spec(s: Seq<char>) -> Seq<char>
    decreases s.len(),
{
    if s.len() == 0 {
        Seq::<char>::empty()
    } else {
        escape_xml_pcdata_spec(s.drop_last()) + escape_char(s.last())
    }
}

/// Escape XML PCDATA
///
/// Ensure `data` is suitably escaped to be used verbatim in XML PCDATA.
pub fn escape_xml_pcdata(data: &str) -> (r: String)
    ensures
        r@ == escape_xml_pcdata_spec(data@),
{
    let len = data.unicode_len();
    let mut out = String::new();
    proof {
        assert(out@ =~= escape_xml_pcdata_spec(data@.take(0)));
    }
    let mut i: usize = 0;
    while i < len
        invariant
            i <= len,
            len == data@.len(),
            out@ == escape_xml_pcdata_spec(data@.take(i as int)),
        decreases len - i,
    {
        let c = data.get_char(i);
        if c == '&' {
            out.append("&amp;");
        } else if c == '<' {
            out.append("&lt;");
        } else {
            crate::util::push_char(&mut out, c);
        }
        proof {
            assert(data@.take(i as int + 1).drop_last() =~= data@.take(i as int));
            assert(data@.take(i as int + 1).last() == data@[i as int]);
        }
        i = i + 1;
    }
    proof {
        assert(data@.take(len as int) =~= data@);
    }
    out
}

/// Content of the rendered `gradle.properties`: project-wide Gradle
/// settings (no daemon, JVM parameters, AndroidX, non-transitive `R`).
pub open spec fn gradle_properties_text() -> Seq<char> {
    "# Generated by osiris-platform\norg.gradle.daemon=false\norg.gradle.jvmargs=-Xmx2048m -Dfile.encoding=UTF-8\nandroid.useAndroidX=true\nandroid.nonTransitiveRClass=true\n"@
}

/// Content of the rendered `local.properties`: the path to the Android
/// SDK, local to this checkout and not meant to be committed.
pub open spec fn local_properties_text(sdk_path: Seq<char>) -> Seq<char> {
    "# Generated by osiris-platform\nsdk.dir="@ + sdk_path + "\n"@
}

/// Content of the rendered `settings.gradle`: module registries and the
/// root project name.
pub open spec fn settings_gradle_text() -> Seq<char> {
    "// Generated by osiris-platform\npluginManagement {\n    repositories {\n        google()\n        mavenCentral()\n        gradlePluginPortal()\n    }\n}\ndependencyResolutionManagement {\n    repositoriesMode.set(RepositoriesMode.FAIL_ON_PROJECT_REPOS)\n    repositories {\n        google()\n        mavenCentral()\n    }\n}\nrootProject.name = System.getProperty('osiris.system.name')\n"@
}

/// Content of the rendered `build.gradle`: the root Gradle build file,
/// reading every project parameter from `osiris.android.*` properties.
pub open spec fn build_gradle_text() -> Seq<char> {
    "// Generated by osiris-platform\nplugins {\n    id 'com.android.application' version '8.0.2'\n}\n\nandroid {\n    compileSdk Integer.parseInt(project.property('osiris.android.compileSdk'))\n    namespace project.property('osiris.android.namespace')\n\n    defaultConfig {\n        applicationId project.property('osiris.android.applicationId')\n        minSdk Integer.parseInt(project.property('osiris.android.minSdk'))\n        targetSdk Integer.parseInt(project.property('osiris.android.targetSdk'))\n        versionCode Integer.parseInt(project.property('osiris.android.versionCode'))\n        versionName project.property('osiris.android.versionName')\n\n        testInstrumentationRunner 'androidx.test.runner.AndroidJUnitRunner'\n    }\n\n    buildTypes {\n        release {\n            minifyEnabled false\n        }\n    }\n\n    compileOptions {\n        sourceCompatibility JavaVersion.VERSION_1_8\n        targetCompatibility JavaVersion.VERSION_1_8\n    }\n}\n\ndependencies {\n    implementation 'androidx.appcompat:appcompat:1.6.1'\n    implementation 'com.google.android.material:material:1.9.0'\n    implementation 'androidx.constraintlayout:constraintlayout:2.1.4'\n    testImplementation 'junit:junit:4.13.2'\n    androidTestImplementation 'androidx.test.ext:junit:1.1.5'\n    androidTestImplementation 'androidx.test.espresso:espresso-core:3.5.1'\n}\n"@
}

/// Content of the rendered `AndroidManifest.xml`: the root application
/// manifest, referring to the entry-point activity.
pub open spec fn android_manifest_text() -> Seq<char> {
    "<?xml version=\"1.0\" encoding=\"utf-8\"?>\n<!-- Generated by osiris-platform -->\n<manifest\n    xmlns:android=\"http://schemas.android.com/apk/res/android\"\n    xmlns:tools=\"http://schemas.android.com/tools\">\n\n    <application\n        android:allowBackup=\"true\"\n        android:label=\"@string/app_name\"\n        android:supportsRtl=\"true\"\n        android:theme=\"@style/Theme.Main\">\n        <activity\n            android:name=\".MainActivity\"\n            android:exported=\"true\">\n            <intent-filter>\n                <action android:name=\"android.intent.action.MAIN\" />\n                <category android:name=\"android.intent.category.LAUNCHER\" />\n            </intent-filter>\n        </activity>\n    </application>\n</manifest>\n"@
}

/// Content of the rendered `activity_main.xml`: the layout used by the
/// main activity, a full-screen text box.
pub open spec fn activity_main_text() -> Seq<char> {
    "<?xml version=\"1.0\" encoding=\"utf-8\"?>\n<!-- Generated by osiris-platform -->\n<androidx.constraintlayout.widget.ConstraintLayout\n    xmlns:android=\"http://schemas.android.com/apk/res/android\"\n    xmlns:app=\"http://schemas.android.com/apk/res-auto\"\n    xmlns:tools=\"http://schemas.android.com/tools\"\n    android:layout_width=\"match_parent\"\n    android:layout_height=\"match_parent\"\n    tools:context=\".MainActivity\">\n\n    <TextView\n        android:layout_width=\"wrap_content\"\n        android:layout_height=\"wrap_content\"\n        android:text=\"Hello World!\"\n        app:layout_constraintBottom_toBottomOf=\"parent\"\n        app:layout_constraintEnd_toEndOf=\"parent\"\n        app:layout_constraintStart_toStartOf=\"parent\"\n        app:layout_constraintTop_toTopOf=\"parent\" />\n</androidx.constraintlayout.widget.ConstraintLayout>\n"@
}

/// Content of the rendered `strings.xml`: the string registry, holding
/// the application name in escaped PCDATA position.
pub open spec fn strings_text(name: Seq<char>) -> Seq<char> {
    "<!-- Generated by osiris-platform -->\n<resources>\n    <string name=\"app_name\">"@
        + escape_xml_pcdata_spec(name) + "</string>\n</resources>\n"@
}

/// Content of the rendered `themes.xml`: the base theme, inheriting the
/// default Material theme.
pub open spec fn themes_text() -> Seq<char> {
    "<!-- Generated by osiris-platform -->\n<resources xmlns:tools=\"http://schemas.android.com/tools\">\n    <style name=\"Theme.Main\" parent=\"Theme.Material3.DayNight.NoActionBar\">\n    </style>\n</resources>\n"@
}

/// Content of the rendered `MainActivity.java`: the entry-point activity,
/// declared in the given namespace.
pub open spec fn main_activity_text(namespace: Seq<char>) -> Seq<char> {
    "// Generated by osiris-platform\npackage "@ + namespace
        + ";\n\nimport androidx.appcompat.app.AppCompatActivity;\n\nimport android.os.Bundle;\n\npublic class MainActivity extends AppCompatActivity {\n    @Override\n    protected void onCreate(Bundle savedInstanceState) {\n        super.onCreate(savedInstanceState);\n        setContentView(R.layout.activity_main);\n    }\n}\n"@
}

// Emerge Android `gradle.properties`
//
// `gradle.properties` is a key-value store read by Gradle before startup.
// It defines project-wide settings for Gradle.
pub fn emerge_android_gradle_properties(plan: &mut Plan, dir: &str)
    ensures
        final(plan).ops@.len() == old(plan).ops@.len() + 1,
        final(plan).ops@.drop_last() == old(plan).ops@,
        is_write_op(
            final(plan).ops@.last(),
            join_spec(dir@, "gradle.properties"@),
            gradle_properties_text(),
        ),
{
    let path = path_join(dir, "gradle.properties");
    let content = String::from_str(
        "# Generated by osiris-platform\norg.gradle.daemon=false\norg.gradle.jvmargs=-Xmx2048m -Dfile.encoding=UTF-8\nandroid.useAndroidX=true\nandroid.nonTransitiveRClass=true\n",
    );
    plan.ops.push(Op::Write(path, content));
    proof {
        assert(plan.ops@.drop_last() =~= old(plan).ops@);
    }
}

// Emerge Android `local.properties`
//
// `local.properties` is a key-value store read by Gradle during startup,
// reserved for local project configuration that is not committed to the
// code base. It carries the path to the Android SDK.
pub fn emerge_android_local_properties(plan: &mut Plan, dir: &str, sdk_path: &str)
    ensures
        final(plan).ops@.len() == old(plan).ops@.len() + 1,
        final(plan).ops@.drop_last() == old(plan).ops@,
        is_write_op(
            final(plan).ops@.last(),
            join_spec(dir@, "local.properties"@),
            local_properties_text(sdk_path@),
        ),
{
    let path = path_join(dir, "local.properties");
    let mut content = String::from_str("# Generated by osiris-platform\nsdk.dir=");
    content.append(sdk_path);
    content.append("\n");
    plan.ops.push(Op::Write(path, content));
    proof {
        assert(plan.ops@.drop_last() =~= old(plan).ops@);
    }
}

// Emerge Android `settings.gradle`
//
// `settings.gradle` is the root configuration for Gradle: the module
// resolution behavior, the module registries, and the root project name.
pub fn emerge_android_settings_gradle(plan: &mut Plan, dir: &str)
    ensures
        final(plan).ops@.len() == old(plan).ops@.len() + 1,
        final(plan).ops@.drop_last() == old(plan).ops@,
        is_write_op(
            final(plan).ops@.last(),
            join_spec(dir@, "settings.gradle"@),
            settings_gradle_text(),
        ),
{
    let path = path_join(dir, "settings.gradle");
    let content = String::from_str(
        "// Generated by osiris-platform\npluginManagement {\n    repositories {\n        google()\n        mavenCentral()\n        gradlePluginPortal()\n    }\n}\ndependencyResolutionManagement {\n    repositoriesMode.set(RepositoriesMode.FAIL_ON_PROJECT_REPOS)\n    repositories {\n        google()\n        mavenCentral()\n    }\n}\nrootProject.name = System.getProperty('osiris.system.name')\n",
    );
    plan.ops.push(Op::Write(path, content));
    proof {
        assert(plan.ops@.drop_last() =~= old(plan).ops@);
    }
}

// Emerge Android `build.gradle`
//
// `build.gradle` is the root build file for Gradle. It defines the
// artifacts to build, using the Groovy configuration language.
pub fn emerge_android_build_gradle(plan: &mut Plan, dir: &str)
    ensures
        final(plan).ops@.len() == old(plan).ops@.len() + 1,
        final(plan).ops@.drop_last() == old(plan).ops@,
        is_write_op(final(plan).ops@.last(), join_spec(dir@, "build.gradle"@), build_gradle_text()),
{
    let path = path_join(dir, "build.gradle");
    let content = String::from_str(
        "// Generated by osiris-platform\nplugins {\n    id 'com.android.application' version '8.0.2'\n}\n\nandroid {\n    compileSdk Integer.parseInt(project.property('osiris.android.compileSdk'))\n    namespace project.property('osiris.android.namespace')\n\n    defaultConfig {\n        applicationId project.property('osiris.android.applicationId')\n        minSdk Integer.parseInt(project.property('osiris.android.minSdk'))\n        targetSdk Integer.parseInt(project.property('osiris.android.targetSdk'))\n        versionCode Integer.parseInt(project.property('osiris.android.versionCode'))\n        versionName project.property('osiris.android.versionName')\n\n        testInstrumentationRunner 'androidx.test.runner.AndroidJUnitRunner'\n    }\n\n    buildTypes {\n        release {\n            minifyEnabled false\n        }\n    }\n\n    compileOptions {\n        sourceCompatibility JavaVersion.VERSION_1_8\n        targetCompatibility JavaVersion.VERSION_1_8\n    }\n}\n\ndependencies {\n    implementation 'androidx.appcompat:appcompat:1.6.1'\n    implementation 'com.google.android.material:material:1.9.0'\n    implementation 'androidx.constraintlayout:constraintlayout:2.1.4'\n    testImplementation 'junit:junit:4.13.2'\n    androidTestImplementation 'androidx.test.ext:junit:1.1.5'\n    androidTestImplementation 'androidx.test.espresso:espresso-core:3.5.1'\n}\n",
    );
    plan.ops.push(Op::Write(path, content));
    proof {
        assert(plan.ops@.drop_last() =~= old(plan).ops@);
    }
}

// Emerge Android `AndroidManifest.xml`
//
// Write the main application manifest according to the Android
// Application documentation: the root application configuration,
// referring to all the embedded resources.
pub fn emerge_android_manifest(plan: &mut Plan, dir: &str)
    ensures
        final(plan).ops@.len() == old(plan).ops@.len() + 1,
        final(plan).ops@.drop_last() == old(plan).ops@,
        is_write_op(
            final(plan).ops@.last(),
            join_spec(dir@, "AndroidManifest.xml"@),
            android_manifest_text(),
        ),
{
    let path = path_join(dir, "AndroidManifest.xml");
    let content = String::from_str(
        "<?xml version=\"1.0\" encoding=\"utf-8\"?>\n<!-- Generated by osiris-platform -->\n<manifest\n    xmlns:android=\"http://schemas.android.com/apk/res/android\"\n    xmlns:tools=\"http://schemas.android.com/tools\">\n\n    <application\n        android:allowBackup=\"true\"\n        android:label=\"@string/app_name\"\n        android:supportsRtl=\"true\"\n        android:theme=\"@style/Theme.Main\">\n        <activity\n            android:name=\".MainActivity\"\n            android:exported=\"true\">\n            <intent-filter>\n                <action android:name=\"android.intent.action.MAIN\" />\n                <category android:name=\"android.intent.category.LAUNCHER\" />\n            </intent-filter>\n        </activity>\n    </application>\n</manifest>\n",
    );
    plan.ops.push(Op::Write(path, content));
    proof {
        assert(plan.ops@.drop_last() =~= old(plan).ops@);
    }
}

// Emerge Android `activity_main.xml`
//
// This is the layout used by the main activity: a simple full-widget
// layout with a text-box.
pub fn emerge_android_activity_main(plan: &mut Plan, dir: &str)
    ensures
        final(plan).ops@.len() == old(plan).ops@.len() + 1,
        final(plan).ops@.drop_last() == old(plan).ops@,
        is_write_op(
            final(plan).ops@.last(),
            join_spec(dir@, "activity_main.xml"@),
            activity_main_text(),
        ),
{
    let path = path_join(dir, "activity_main.xml");
    let content = String::from_str(
        "<?xml version=\"1.0\" encoding=\"utf-8\"?>\n<!-- Generated by osiris-platform -->\n<androidx.constraintlayout.widget.ConstraintLayout\n    xmlns:android=\"http://schemas.android.com/apk/res/android\"\n    xmlns:app=\"http://schemas.android.com/apk/res-auto\"\n    xmlns:tools=\"http://schemas.android.com/tools\"\n    android:layout_width=\"match_parent\"\n    android:layout_height=\"match_parent\"\n    tools:context=\".MainActivity\">\n\n    <TextView\n        android:layout_width=\"wrap_content\"\n        android:layout_height=\"wrap_content\"\n        android:text=\"Hello World!\"\n        app:layout_constraintBottom_toBottomOf=\"parent\"\n        app:layout_constraintEnd_toEndOf=\"parent\"\n        app:layout_constraintStart_toStartOf=\"parent\"\n        app:layout_constraintTop_toTopOf=\"parent\" />\n</androidx.constraintlayout.widget.ConstraintLayout>\n",
    );
    plan.ops.push(Op::Write(path, content));
    proof {
        assert(plan.ops@.drop_last() =~= old(plan).ops@);
    }
}

// Emerge Android `strings.xml`
//
// The default string registry of the Android application; it holds the
// user-visible application name.
pub fn emerge_android_strings(plan: &mut Plan, dir: &str, name: &str)
    ensures
        final(plan).ops@.len() == old(plan).ops@.len() + 1,
        final(plan).ops@.drop_last() == old(plan).ops@,
        is_write_op(
            final(plan).ops@.last(),
            join_spec(dir@, "strings.xml"@),
            strings_text(name@),
        ),
{
    let path = path_join(dir, "strings.xml");
    let escaped = escape_xml_pcdata(name);
    let mut content = String::from_str(
        "<!-- Generated by osiris-platform -->\n<resources>\n    <string name=\"app_name\">",
    );
    content.append(escaped.as_str());
    content.append("</string>\n</resources>\n");
    proof {
        assert(content@ =~= strings_text(name@));
    }
    plan.ops.push(Op::Write(path, content));
    proof {
        assert(plan.ops@.drop_last() =~= old(plan).ops@);
    }
}

// Emerge Android `themes.xml`
//
// Define the base theme for the application. No custom styles are added,
// just the default theme is inherited.
pub fn emerge_android_themes(plan: &mut Plan, dir: &str)
    ensures
        final(plan).ops@.len() == old(plan).ops@.len() + 1,
        final(plan).ops@.drop_last() == old(plan).ops@,
        is_write_op(final(plan).ops@.last(), join_spec(dir@, "themes.xml"@), themes_text()),
{
    let path = path_join(dir, "themes.xml");
    let content = String::from_str(
        "<!-- Generated by osiris-platform -->\n<resources xmlns:tools=\"http://schemas.android.com/tools\">\n    <style name=\"Theme.Main\" parent=\"Theme.Material3.DayNight.NoActionBar\">\n    </style>\n</resources>\n",
    );
    plan.ops.push(Op::Write(path, content));
    proof {
        assert(plan.ops@.drop_last() =~= old(plan).ops@);
    }
}

// Emerge Android `MainActivity.java`
//
// Write the main activity code, which is the entrypoint into the
// application. It sets `activity_main` as the content-view and recreates
// the base class from the saved state, if any.
pub fn emerge_android_main_activity(plan: &mut Plan, dir: &str, namespace: &str)
    ensures
        final(plan).ops@.len() == old(plan).ops@.len() + 1,
        final(plan).ops@.drop_last() == old(plan).ops@,
        is_write_op(
            final(plan).ops@.last(),
            join_spec(dir@, "MainActivity.java"@),
            main_activity_text(namespace@),
        ),
{
    let path = path_join(dir, "MainActivity.java");
    let mut content = String::from_str("// Generated by osiris-platform\npackage ");
    content.append(namespace);
    content.append(
        ";\n\nimport androidx.appcompat.app.AppCompatActivity;\n\nimport android.os.Bundle;\n\npublic class MainActivity extends AppCompatActivity {\n    @Override\n    protected void onCreate(Bundle savedInstanceState) {\n        super.onCreate(savedInstanceState);\n        setContentView(R.layout.activity_main);\n    }\n}\n",
    );
    proof {
        assert(content@ =~= main_activity_text(namespace@));
    }
    plan.ops.push(Op::Write(path, content));
    proof {
        assert(plan.ops@.drop_last() =~= old(plan).ops@);
    }
}

/// The fixed, ordered sequence of Android integration steps rooted at
/// `dir`: the four root files, the source tree directories, the resource
/// files, and the activity source in the namespace directory.
pub open spec fn android_plan_matches(
    ops: Seq<Op>,
    dir: Seq<char>,
    name: Seq<char>,
    namespace: Seq<char>,
    sdk_path: Seq<char>,
) -> bool {
    let src = join_spec(dir, "src"@);
    let main = join_spec(src, "main"@);
    let res = join_spec(main, "res"@);
    let layout = join_spec(res, "layout"@);
    let values = join_spec(res, "values"@);
    let java = join_spec(main, "java"@);
    let nsd = join_spec(java, namespace_path_spec(namespace));
    &&& ops.len() == 15
    &&& is_write_op(ops[0], join_spec(dir, "gradle.properties"@), gradle_properties_text())
    &&& is_write_op(ops[1], join_spec(dir, "local.properties"@), local_properties_text(sdk_path))
    &&& is_write_op(ops[2], join_spec(dir, "settings.gradle"@), settings_gradle_text())
    &&& is_write_op(ops[3], join_spec(dir, "build.gradle"@), build_gradle_text())
    &&& is_dir_op(ops[4], src)
    &&& is_dir_op(ops[5], main)
    &&& is_write_op(ops[6], join_spec(main, "AndroidManifest.xml"@), android_manifest_text())
    &&& is_dir_op(ops[7], res)
    &&& is_dir_op(ops[8], layout)
    &&& is_write_op(ops[9], join_spec(layout, "activity_main.xml"@), activity_main_text())
    &&& is_dir_op(ops[10], values)
    &&& is_write_op(ops[11], join_spec(values, "strings.xml"@), strings_text(name))
    &&& is_write_op(ops[12], join_spec(values, "themes.xml"@), themes_text())
    &&& is_dir_op(ops[13], nsd)
    &&& is_write_op(ops[14], join_spec(nsd, "MainActivity.java"@), main_activity_text(namespace))
}

/// The Android plan removes nothing, and no two of its writes share a
/// path — so, with [`lemma_plan_idempotent`], running it a second time
/// over what the first run produced changes nothing at all, modification
/// stamps included.
#[verifier::rlimit(60)]
pub proof fn lemma_android_plan_applies_cleanly(
    ops: Seq<Op>,
    dir: Seq<char>,
    name: Seq<char>,
    namespace: Seq<char>,
    sdk_path: Seq<char>,
)
    requires
        android_plan_matches(ops, dir, name, namespace, sdk_path),
    ensures
        no_removes(ops),
        writes_consistent(ops),
{
    reveal_strlit("src");
    reveal_strlit("main");
    reveal_strlit("res");
    reveal_strlit("layout");
    reveal_strlit("values");
    reveal_strlit("java");
    reveal_strlit("/");
    reveal_strlit("gradle.properties");
    reveal_strlit("local.properties");
    reveal_strlit("settings.gradle");
    reveal_strlit("build.gradle");
    reveal_strlit("AndroidManifest.xml");
    reveal_strlit("activity_main.xml");
    reveal_strlit("strings.xml");
    reveal_strlit("themes.xml");
    reveal_strlit("MainActivity.java");

    let sm = "src"@ + "/"@ + "main"@;
    let smr = sm + "/"@ + "res"@;
    let smrl = smr + "/"@ + "layout"@;
    let smrv = smr + "/"@ + "values"@;
    let smj = sm + "/"@ + "java"@;
    let nsp = namespace_path_spec(namespace);
    let smjn = smj + "/"@ + nsp;

    let r0 = "gradle.properties"@;
    let r1 = "local.properties"@;
    let r2 = "settings.gradle"@;
    let r3 = "build.gradle"@;
    let r6 = sm + "/"@ + "AndroidManifest.xml"@;
    let r9 = smrl + "/"@ + "activity_main.xml"@;
    let r11 = smrv + "/"@ + "strings.xml"@;
    let r12 = smrv + "/"@ + "themes.xml"@;
    let r14 = smjn + "/"@ + "MainActivity.java"@;

    // Flatten every nested join onto the base directory.
    lemma_join_flatten(dir, "src"@, "main"@);
    lemma_join_flatten(dir, sm, "AndroidManifest.xml"@);
    lemma_join_flatten(dir, sm, "res"@);
    lemma_join_flatten(dir, smr, "layout"@);
    lemma_join_flatten(dir, smr, "values"@);
    lemma_join_flatten(dir, smrl, "activity_main.xml"@);
    lemma_join_flatten(dir, smrv, "strings.xml"@);
    lemma_join_flatten(dir, smrv, "themes.xml"@);
    lemma_join_flatten(dir, sm, "java"@);
    lemma_join_flatten(dir, smj, nsp);
    lemma_join_flatten(dir, smjn, "MainActivity.java"@);

    // The relative paths of the nine writes differ pairwise, by length or
    // by an early character.
    assert(r0.len() == 17);
    assert(r1.len() == 16);
    assert(r2.len() == 15);
    assert(r3.len() == 12);
    assert(r6.len() == 28);
    assert(r9.len() == 37);
    assert(r11.len() == 31);
    assert(r12.len() == 30);
    assert(r14.len() == 32 + nsp.len());

    assert(r14[0] == 's' && r14[1] == 'r' && r14[9] == 'j');
    assert(r0[0] == 'g');
    assert(r1[0] == 'l');
    assert(r2[0] == 's' && r2[1] == 'e');
    assert(r3[0] == 'b');
    assert(r6[9] == 'A');
    assert(r9[9] == 'r');
    assert(r11[9] == 'r');
    assert(r12[9] == 'r');

    assert(r14 != r0 && r14 != r1 && r14 != r2 && r14 != r3 && r14 != r6 && r14 != r9 && r14 != r11
        && r14 != r12);

    lemma_join_distinct(dir, r0, r1);
    lemma_join_distinct(dir, r0, r2);
    lemma_join_distinct(dir, r0, r3);
    lemma_join_distinct(dir, r0, r6);
    lemma_join_distinct(dir, r0, r9);
    lemma_join_distinct(dir, r0, r11);
    lemma_join_distinct(dir, r0, r12);
    lemma_join_distinct(dir, r0, r14);
    lemma_join_distinct(dir, r1, r2);
    lemma_join_distinct(dir, r1, r3);
    lemma_join_distinct(dir, r1, r6);
    lemma_join_distinct(dir, r1, r9);
    lemma_join_distinct(dir, r1, r11);
    lemma_join_distinct(dir, r1, r12);
    lemma_join_distinct(dir, r1, r14);
    lemma_join_distinct(dir, r2, r3);
    lemma_join_distinct(dir, r2, r6);
    lemma_join_distinct(dir, r2, r9);
    lemma_join_distinct(dir, r2, r11);
    lemma_join_distinct(dir, r2, r12);
    lemma_join_distinct(dir, r2, r14);
    lemma_join_distinct(dir, r3, r6);
    lemma_join_distinct(dir, r3, r9);
    lemma_join_distinct(dir, r3, r11);
    lemma_join_distinct(dir, r3, r12);
    lemma_join_distinct(dir, r3, r14);
    lemma_join_distinct(dir, r6, r9);
    lemma_join_distinct(dir, r6, r11);
    lemma_join_distinct(dir, r6, r12);
    lemma_join_distinct(dir, r6, r14);
    lemma_join_distinct(dir, r9, r11);
    lemma_join_distinct(dir, r9, r12);
    lemma_join_distinct(dir, r9, r14);
    lemma_join_distinct(dir, r11, r12);
    lemma_join_distinct(dir, r11, r14);
    lemma_join_distinct(dir, r12, r14);

    assert(no_removes(ops));
    assert forall|i: int, j: int|
        0 <= i < ops.len() && 0 <= j < ops.len() implies write_agree(
        #[trigger] ops[i],
        #[trigger] ops[j],
    ) by {
        if i == j {
        } else {
            assert(write_agree(ops[i], ops[j]));
        }
    }
}

/// Emission idempotence for the Android plan itself: over whatever file
/// system a first run of the plan produced, a second run — at any later
/// stamp — changes nothing: no content, no directory, and no
/// modification stamp.
pub proof fn lemma_android_emission_idempotent(
    ops: Seq<Op>,
    dir: Seq<char>,
    name: Seq<char>,
    namespace: Seq<char>,
    sdk_path: Seq<char>,
    fs: FsModel,
    t1: nat,
    t2: nat,
)
    requires
        android_plan_matches(ops, dir, name, namespace, sdk_path),
    ensures
        apply_plan(apply_plan(fs, ops, t1), ops, t2) == apply_plan(fs, ops, t1),
{
    lemma_android_plan_applies_cleanly(ops, dir, name, namespace, sdk_path);
    lemma_plan_idempotent(fs, ops, t1, t2);
}

/// The first missing manifest key that stops an Android emission:
/// application keys are resolved before platform keys.
pub open spec fn emerge_missing_key(manifest: Manifest, a: RawPlatformAndroid) -> Seq<char> {
    match manifest.raw.application {
        None => "application"@,
        Some(app) => if !view_application_ok(app) {
            view_application_missing(app)
        } else {
            view_android_missing(a, manifest.raw)
        },
    }
}

/// Both views needed by an Android emission can be produced.
pub open spec fn emerge_views_ok(manifest: Manifest, a: RawPlatformAndroid) -> bool {
    &&& manifest.raw.application matches Some(app) && view_application_ok(app)
    &&& view_android_ok(a, manifest.raw)
}

// Android-specific backend to `emerge()`: resolve the views, then append
// the fixed file sequence to the plan.
pub fn emerge_android(
    manifest: &Manifest,
    _platform: &RawPlatform,
    android: &RawPlatformAndroid,
    dir: &str,
    plan: &mut Plan,
) -> (r: Result<(), Error>)
    ensures
        r is Ok <==> emerge_views_ok(*manifest, *android),
        r matches Err(e) ==> (final(plan).ops@ == old(plan).ops@ && (e matches Error::ManifestKey(
            k,
        ) && k@ == emerge_missing_key(*manifest, *android))),
        r is Ok ==> final(plan).ops@.len() == old(plan).ops@.len() + 15
            && final(plan).ops@.take(old(plan).ops@.len() as int) == old(plan).ops@
            && android_plan_matches(
            final(plan).ops@.skip(old(plan).ops@.len() as int),
            dir@,
            crate::manifest::application_name_spec(manifest.raw.application->0),
            android.namespace->0@,
            android.sdk_path->0@,
        ),
{
    let ghost n0 = plan.ops@.len() as int;

    let view_application = match manifest.raw.view_application() {
        Ok(v) => v,
        Err(e) => {
            return Err(Error::from_manifest_error_view(e));
        },
    };
    let view_android = match android.view(&manifest.raw) {
        Ok(v) => v,
        Err(e) => {
            return Err(Error::from_manifest_error_view(e));
        },
    };

    // Create the persistent files.
    emerge_android_gradle_properties(plan, dir);
    let ghost s1 = plan.ops@;
    emerge_android_local_properties(plan, dir, view_android.sdk_path.as_str());
    let ghost s2 = plan.ops@;
    emerge_android_settings_gradle(plan, dir);
    let ghost s3 = plan.ops@;
    emerge_android_build_gradle(plan, dir);
    let ghost s4 = plan.ops@;

    let src_dir = path_join(dir, "src");
    plan.ops.push(Op::Dir(src_dir.clone()));
    let ghost s5 = plan.ops@;
    let main_dir = path_join(src_dir.as_str(), "main");
    plan.ops.push(Op::Dir(main_dir.clone()));
    let ghost s6 = plan.ops@;
    emerge_android_manifest(plan, main_dir.as_str());
    let ghost s7 = plan.ops@;

    let res_dir = path_join(main_dir.as_str(), "res");
    plan.ops.push(Op::Dir(res_dir.clone()));
    let ghost s8 = plan.ops@;
    let layout_dir = path_join(res_dir.as_str(), "layout");
    plan.ops.push(Op::Dir(layout_dir.clone()));
    let ghost s9 = plan.ops@;
    emerge_android_activity_main(plan, layout_dir.as_str());
    let ghost s10 = plan.ops@;

    let values_dir = path_join(res_dir.as_str(), "values");
    plan.ops.push(Op::Dir(values_dir.clone()));
    let ghost s11 = plan.ops@;
    emerge_android_strings(plan, values_dir.as_str(), view_application.name.as_str());
    let ghost s12 = plan.ops@;
    emerge_android_themes(plan, values_dir.as_str());
    let ghost s13 = plan.ops@;

    // Create the java-style directory-tree based on the namespace.
    let java_dir = path_join(main_dir.as_str(), "java");
    let ns_path = namespace_to_path(view_android.namespace.as_str());
    let ns_dir = path_join(java_dir.as_str(), ns_path.as_str());
    plan.ops.push(Op::Dir(ns_dir.clone()));
    let ghost s14 = plan.ops@;
    emerge_android_main_activity(plan, ns_dir.as_str(), view_android.namespace.as_str());
    let ghost s15 = plan.ops@;

    proof {
        assert(forall|j: int| 0 <= j < n0 + 14 ==> s15[j] == s14[j]);
        assert(forall|j: int| 0 <= j < n0 + 13 ==> s14[j] == s13[j]);
        assert(forall|j: int| 0 <= j < n0 + 12 ==> s13[j] == s12[j]);
        assert(forall|j: int| 0 <= j < n0 + 11 ==> s12[j] == s11[j]);
        assert(forall|j: int| 0 <= j < n0 + 10 ==> s11[j] == s10[j]);
        assert(forall|j: int| 0 <= j < n0 + 9 ==> s10[j] == s9[j]);
        assert(forall|j: int| 0 <= j < n0 + 8 ==> s9[j] == s8[j]);
        assert(forall|j: int| 0 <= j < n0 + 7 ==> s8[j] == s7[j]);
        assert(forall|j: int| 0 <= j < n0 + 6 ==> s7[j] == s6[j]);
        assert(forall|j: int| 0 <= j < n0 + 5 ==> s6[j] == s5[j]);
        assert(forall|j: int| 0 <= j < n0 + 4 ==> s5[j] == s4[j]);
        assert(forall|j: int| 0 <= j < n0 + 3 ==> s4[j] == s3[j]);
        assert(forall|j: int| 0 <= j < n0 + 2 ==> s3[j] == s2[j]);
        assert(forall|j: int| 0 <= j < n0 + 1 ==> s2[j] == s1[j]);
        assert(forall|j: int| 0 <= j < n0 ==> s1[j] == old(plan).ops@[j]);
        assert(plan.ops@.take(n0) =~= old(plan).ops@);
        assert(is_write_op(plan.ops@[n0], join_spec(dir@, "gradle.properties"@), gradle_properties_text()));
        assert(is_write_op(plan.ops@[n0 + 1], join_spec(dir@, "local.properties"@), local_properties_text(android.sdk_path->0@)));
        assert(is_write_op(plan.ops@[n0 + 2], join_spec(dir@, "settings.gradle"@), settings_gradle_text()));
        assert(is_write_op(plan.ops@[n0 + 3], join_spec(dir@, "build.gradle"@), build_gradle_text()));
        assert(is_dir_op(plan.ops@[n0 + 4], join_spec(dir@, "src"@)));
        assert(is_dir_op(plan.ops@[n0 + 5], main_dir@));
        assert(is_write_op(plan.ops@[n0 + 6], join_spec(main_dir@, "AndroidManifest.xml"@), android_manifest_text()));
        assert(is_dir_op(plan.ops@[n0 + 7], res_dir@));
        assert(is_dir_op(plan.ops@[n0 + 8], layout_dir@));
        assert(is_write_op(plan.ops@[n0 + 9], join_spec(layout_dir@, "activity_main.xml"@), activity_main_text()));
        assert(is_dir_op(plan.ops@[n0 + 10], values_dir@));
        assert(is_write_op(plan.ops@[n0 + 11], join_spec(values_dir@, "strings.xml"@), strings_text(crate::manifest::application_name_spec(manifest.raw.application->0))));
        assert(is_write_op(plan.ops@[n0 + 12], join_spec(values_dir@, "themes.xml"@), themes_text()));
        assert(is_dir_op(plan.ops@[n0 + 13], ns_dir@));
        assert(is_write_op(plan.ops@[n0 + 14], join_spec(ns_dir@, "MainActivity.java"@), main_activity_text(android.namespace->0@)));
        assert(forall|k: int| 0 <= k < 15 ==> plan.ops@.skip(n0)[k] == plan.ops@[n0 + k]);
        assert(plan.ops@.skip(n0).len() == 15);
    }
    Ok(())
}

/// The Android configuration of a platform entry; the configuration's
/// only variant.
pub open spec fn platform_android(platform: RawPlatform) -> RawPlatformAndroid
    recommends
        platform.configuration is Some,
{
    platform.configuration->0->0
}

/// What the emission is rooted at: the override where given, else the
/// platform path from the manifest.
pub open spec fn emerge_base_spec(platform: RawPlatform, path_override: Option<&str>) -> Seq<char> {
    match path_override {
        Some(p) => p@,
        None => platform.path_spec(),
    }
}

/// The operation goes ahead: the directory is missing, or it exists and
/// updating was allowed.
pub open spec fn emerge_proceeds(status: DirectoryStatus, update: bool) -> bool {
    status is Missing || (status is IsDirectory && update)
}

/// The steps a proceeding emission starts with: the base directory is
/// created only where nothing existed.
pub open spec fn base_ops(status: DirectoryStatus) -> int {
    if status is Missing {
        1
    } else {
        0
    }
}

/// Emerge persistent platform integration
///
/// Compute the plan of file operations that writes the platform
/// integration for the specified platform. The manifest is sourced for
/// integration parameters. By default, the integration is rooted at the
/// platform directory as specified in the manifest; this base path can be
/// overridden via the `path_override` parameter.
///
/// `status` is what the runner observed at the base path. The operation
/// fails if something other than a directory is there, and fails with
/// [`Error::Already`] — planning nothing — if a directory is there and
/// `update` is `false`.
pub fn emerge(
    manifest: &Manifest,
    platform: &RawPlatform,
    path_override: Option<&str>,
    update: bool,
    status: DirectoryStatus,
) -> (r: Result<Plan, Error>)
    ensures
        (status is NotDirectory || status is Inaccessible) ==> (r matches Err(e) && e matches Error::PlatformDirectory(
            p,
        ) && p@ == emerge_base_spec(*platform, path_override)),
        (status is IsDirectory && !update) ==> (r matches Err(e) && e is Already),
        (emerge_proceeds(status, update) && platform.configuration is None) ==> (r matches Ok(plan)
            && plan.ops@.len() == base_ops(status) && (status is Missing ==> is_dir_op(
            plan.ops@[0],
            emerge_base_spec(*platform, path_override),
        ))),
        (emerge_proceeds(status, update) && platform.configuration is Some) ==> (match r {
            Ok(plan) => {
                &&& emerge_views_ok(*manifest, platform_android(*platform))
                &&& plan.ops@.len() == base_ops(status) + 15
                &&& (status is Missing ==> is_dir_op(
                    plan.ops@[0],
                    emerge_base_spec(*platform, path_override),
                ))
                &&& android_plan_matches(
                    plan.ops@.skip(base_ops(status)),
                    emerge_base_spec(*platform, path_override),
                    crate::manifest::application_name_spec(manifest.raw.application->0),
                    platform_android(*platform).namespace->0@,
                    platform_android(*platform).sdk_path->0@,
                )
            },
            Err(e) => {
                &&& !emerge_views_ok(*manifest, platform_android(*platform))
                &&& e matches Error::ManifestKey(k) && k@ == emerge_missing_key(
                    *manifest,
                    platform_android(*platform),
                )
            },
        }),
{
    // By default, we use the path specified in the manifest as platform
    // directory. However, an override can be provided by the caller. This
    // is useful to emerge into ephemeral build directories.
    let dir: String = match path_override {
        Some(p) => String::from_str(p),
        None => platform.path(),
    };

    // Check what the runner found at the platform path. If the path points
    // to something other than a directory, we fail with an error. If the
    // path points to an existing directory and updates are not allowed, we
    // fail. Otherwise, we plan its creation where needed and continue.
    match status {
        DirectoryStatus::NotDirectory | DirectoryStatus::Inaccessible => {
            return Err(Error::PlatformDirectory(dir));
        },
        DirectoryStatus::IsDirectory => {
            if !update {
                return Err(Error::Already);
            }
        },
        DirectoryStatus::Missing => {},
    }

    let mut plan = Plan { ops: Vec::new() };
    match status {
        DirectoryStatus::Missing => {
            plan.ops.push(Op::Dir(dir.clone()));
        },
        _ => {},
    }
    let ghost base_seq = plan.ops@;
    let ghost nb = plan.ops@.len() as int;
    proof {
        assert(dir@ == emerge_base_spec(*platform, path_override));
        assert(nb == base_ops(status));
        assert(status is Missing ==> is_dir_op(base_seq[0], dir@));
    }

    // Invoke the platform-dependent handler.
    match &platform.configuration {
        Some(RawPlatformConfiguration::Android(v)) => {
            match emerge_android(manifest, platform, v, dir.as_str(), &mut plan) {
                Ok(_) => {
                    proof {
                        assert(*v == platform_android(*platform));
                        assert(plan.ops@.take(nb) == base_seq);
                        assert(status is Missing ==> plan.ops@[0] == base_seq[0]);
                    }
                    Ok(plan)
                },
                Err(e) => Err(e),
            }
        },
        None => Ok(plan),
    }
}

} // verus!
