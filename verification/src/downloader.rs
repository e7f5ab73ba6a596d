//! Dependency planning and the download engine's decision logic. The engine
//! is a state machine driven from outside: `next_action` says what piece of
//! outside work the current state asks for, and the transition functions take
//! the outcome of that work to the next state. All network and file work is
//! the driver's; every decision is made, and proved, here.
use crate::manifest::{AssetIndex, LibraryEntry, OsRule, VersionDescriptor};
use crate::strutil;
use crate::Os;
use vstd::prelude::*;

verus! {

/// Which flavour of version is being installed.
#[derive(Debug, Clone, Copy, PartialEq)]
pub enum VersionType {
    Vanilla,
    Fabric,
}

/// The launcher-managed runtime versions.
#[derive(Debug, Clone, Copy, PartialEq)]
pub enum Java {
    J8,
    J17,
    J21,
}

/// One unit of download work: a target path and a source URL.
#[derive(Clone, Debug, PartialEq)]
pub struct Download {
    pub path: String,
    pub url: String,
}

/// The queue of remaining downloads.
#[derive(Clone, Debug)]
pub struct DownloadList {
    pub download_list: Vec<Download>,
}

/// The states of the download engine.
pub enum State {
    GettingDownloadList(String, VersionType),
    Downloading(DownloadList),
    PreparingJavaDownload(Java),
    DownloadingJava { downloaded: u64, total: u64, folder_to_store: String, java: Java },
    ExtractingJava(String, Java),
    DownloadingMissingFiles(DownloadList),
    PreparingUpdate(String),
    DownloadingUpdate { downloaded: u64, total: u64 },
    Idle,
}

/// The progress events the engine reports after each step.
#[derive(Debug, Clone, PartialEq)]
pub enum Progress {
    GotDownloadList(i32),
    Downloaded(i32),
    Finished,
    StartedJavaDownload(u8),
    JavaDownloadProgressed(u8, u8),
    JavaDownloadFinished,
    JavaExtracted,
    MissingFilesDownloadProgressed(u16),
    MissingFilesDownloadFinished,
    UpdateStarted(u8),
    UpdateProgressed(u8, u8, u8),
    UpdateFinished,
    Errored(String),
}

/// The filename of the staging jar that legacy natives bundles are downloaded
/// to before being unpacked.
pub open spec fn staging_name_spec() -> Seq<char> {
    "natives.jar"@
}

/// Whether `path` denotes the natives staging jar, which the engine unpacks
/// and deletes right after writing it.
pub open spec fn is_staging_path(path: Seq<char>) -> bool {
    strutil::contains_seq(path, staging_name_spec())
}

/// Whether `path` denotes the natives staging jar.
pub fn is_natives_staging(path: &str) -> (r: bool)
    ensures
        r <==> is_staging_path(path@),
{
    strutil::contains_sub(path, "natives.jar")
}

/// The directory a staging jar is unpacked into: the jar's path with its
/// `/natives.jar` piece removed.
pub fn natives_dir_of(path: &str) -> (r: String)
    ensures
        r@ == strutil::replace_all_spec(path@, "/natives.jar"@, Seq::<char>::empty()),
{
    proof {
        reveal_strlit("/natives.jar");
        reveal_strlit("");
        assert(""@ =~= Seq::<char>::empty());
    }
    strutil::replace_all(path, "/natives.jar", "")
}

/// The directory part of `path`: everything before the last `/`, or nothing
/// when the path has a single component.
pub fn parent_dir(path: &str) -> (r: Option<String>)
    ensures
        match r {
            Option::Some(d) => exists|i: int|
                0 <= i < path@.len() && path@[i] == '/' && d@ == path@.subrange(0, i) && forall|
                    j: int,
                |
                    i < j < path@.len() ==> path@[j] != '/',
            Option::None => forall|j: int| 0 <= j < path@.len() ==> path@[j] != '/',
        },
{
    match strutil::rfind_char(path, '/') {
        Some(i) => {
            let d = path.substring_char(0, i);
            proof {
                assert(d@ == path@.subrange(0, i as int));
            }
            Some(String::from_str(d))
        },
        None => None,
    }
}

/// The directory name a version's files live under: the version id itself,
/// with `-fabric` appended for a loader install.
pub open spec fn version_name_spec(version: Seq<char>, t: VersionType) -> Seq<char> {
    match t {
        VersionType::Vanilla => version,
        VersionType::Fabric => version + "-fabric"@,
    }
}

/// The directory name a version's files live under.
pub fn version_dir_name(version: &str, t: &VersionType) -> (r: String)
    ensures
        r@ == version_name_spec(version@, *t),
{
    match t {
        VersionType::Vanilla => String::from_str(version),
        VersionType::Fabric => {
            let mut s = String::from_str(version);
            s.append("-fabric");
            s
        },
    }
}

/// The download URL of a launcher-managed runtime for a platform.
pub open spec fn java_url_spec(java: Java, os: Os) -> Seq<char> {
    match java {
        Java::J8 => match os {
            Os::Windows => "https://github.com/adoptium/temurin8-binaries/releases/download/jdk8u412-b08/OpenJDK8U-jre_x64_windows_hotspot_8u412b08.zip"@,
            Os::Linux => "https://github.com/adoptium/temurin8-binaries/releases/download/jdk8u412-b08/OpenJDK8U-jre_x64_linux_hotspot_8u412b08.tar.gz"@,
        },
        Java::J17 => match os {
            Os::Windows => "https://github.com/adoptium/temurin17-binaries/releases/download/jdk-17.0.9%2B9.1/OpenJDK17U-jre_x64_windows_hotspot_17.0.9_9.zip"@,
            Os::Linux => "https://github.com/adoptium/temurin17-binaries/releases/download/jdk-17.0.11%2B9/OpenJDK17U-jre_x64_linux_hotspot_17.0.11_9.tar.gz"@,
        },
        Java::J21 => match os {
            Os::Windows => "https://github.com/adoptium/temurin21-binaries/releases/download/jdk-21.0.3%2B9/OpenJDK21U-jre_x64_windows_hotspot_21.0.3_9.zip"@,
            Os::Linux => "https://github.com/adoptium/temurin21-binaries/releases/download/jdk-21.0.3%2B9/OpenJDK21U-jre_x64_linux_hotspot_21.0.3_9.tar.gz"@,
        },
    }
}

/// The download URL of a launcher-managed runtime for a platform.
pub fn java_url(java: &Java, os: Os) -> (r: &'static str)
    ensures
        r@ == java_url_spec(*java, os),
{
    match java {
        Java::J8 => match os {
            Os::Windows => "https://github.com/adoptium/temurin8-binaries/releases/download/jdk8u412-b08/OpenJDK8U-jre_x64_windows_hotspot_8u412b08.zip",
            Os::Linux => "https://github.com/adoptium/temurin8-binaries/releases/download/jdk8u412-b08/OpenJDK8U-jre_x64_linux_hotspot_8u412b08.tar.gz",
        },
        Java::J17 => match os {
            Os::Windows => "https://github.com/adoptium/temurin17-binaries/releases/download/jdk-17.0.9%2B9.1/OpenJDK17U-jre_x64_windows_hotspot_17.0.9_9.zip",
            Os::Linux => "https://github.com/adoptium/temurin17-binaries/releases/download/jdk-17.0.11%2B9/OpenJDK17U-jre_x64_linux_hotspot_17.0.11_9.tar.gz",
        },
        Java::J21 => match os {
            Os::Windows => "https://github.com/adoptium/temurin21-binaries/releases/download/jdk-21.0.3%2B9/OpenJDK21U-jre_x64_windows_hotspot_21.0.3_9.zip",
            Os::Linux => "https://github.com/adoptium/temurin21-binaries/releases/download/jdk-21.0.3%2B9/OpenJDK21U-jre_x64_linux_hotspot_21.0.3_9.tar.gz",
        },
    }
}

/// The canonical directory name a managed runtime is installed under.
pub open spec fn java_folder_spec(java: Java) -> Seq<char> {
    match java {
        Java::J8 => "java8"@,
        Java::J17 => "java17"@,
        Java::J21 => "java21"@,
    }
}

/// The canonical directory name a managed runtime is installed under.
pub fn java_folder_name(java: &Java) -> (r: &'static str)
    ensures
        r@ == java_folder_spec(*java),
{
    match java {
        Java::J8 => "java8",
        Java::J17 => "java17",
        Java::J21 => "java21",
    }
}

/// The filename a runtime archive is downloaded to on a platform.
pub open spec fn archive_name_spec(os: Os) -> Seq<char> {
    match os {
        Os::Linux => "compressed.tar.gz"@,
        Os::Windows => "compressed.zip"@,
    }
}

/// The filename a runtime archive is downloaded to on a platform.
pub fn archive_file_name(os: Os) -> (r: &'static str)
    ensures
        r@ == archive_name_spec(os),
{
    match os {
        Os::Linux => "compressed.tar.gz",
        Os::Windows => "compressed.zip",
    }
}

/// The whole number of mebibytes in `n` bytes.
pub open spec fn mib_spec(n: int) -> int {
    n / 1048576
}

/// The percentage of `total` that `done` covers, whole part only; 100 when
/// nothing was expected.
pub open spec fn percent_spec(done: int, total: int) -> int {
    if total == 0 {
        100
    } else {
        done * 100 / total
    }
}

/// Any failure of the outside work takes the engine back to `Idle` with the
/// failure's message; it never retries by itself.
pub fn engine_failed(msg: String) -> (r: (Progress, State))
    ensures
        r.0 == Progress::Errored(msg),
        r.1 is Idle,
{
    (Progress::Errored(msg), State::Idle)
}

/// The planned download list is in: report its size and start working
/// through it.
pub fn download_list_built(list: Vec<Download>) -> (r: (Progress, State))
    ensures
        r.0 == Progress::GotDownloadList(list@.len() as i32),
        r.1 is Downloading && r.1->Downloading_0.download_list == list,
{
    let n = list.len();
    #[verifier::truncate]
    let count: i32 = n as i32;
    (Progress::GotDownloadList(count), State::Downloading(DownloadList { download_list: list }))
}

/// One file of the queue was fetched, written, and (for a staging jar)
/// unpacked: drop it from the queue and report how many remain.
pub fn file_fetched(dl: DownloadList, missing_mode: bool) -> (r: (Progress, State))
    requires
        dl.download_list@.len() > 0,
    ensures
        missing_mode ==> r.0 == Progress::MissingFilesDownloadProgressed(
            (dl.download_list@.len() - 1) as u16,
        ) && r.1 is DownloadingMissingFiles && r.1->DownloadingMissingFiles_0.download_list@
            == dl.download_list@.skip(1),
        !missing_mode ==> r.0 == Progress::Downloaded((dl.download_list@.len() - 1) as i32)
            && r.1 is Downloading && r.1->Downloading_0.download_list@ == dl.download_list@.skip(
            1,
        ),
{
    let mut list = dl.download_list;
    list.remove(0);
    proof {
        assert(list@ =~= dl.download_list@.skip(1));
    }
    let n = list.len();
    if missing_mode {
        #[verifier::truncate]
        let count: u16 = n as u16;
        (
            Progress::MissingFilesDownloadProgressed(count),
            State::DownloadingMissingFiles(DownloadList { download_list: list }),
        )
    } else {
        #[verifier::truncate]
        let count: i32 = n as i32;
        (Progress::Downloaded(count), State::Downloading(DownloadList { download_list: list }))
    }
}

/// The queue is empty: the operation is complete and the engine suspends.
pub fn queue_drained(missing_mode: bool) -> (r: (Progress, State))
    ensures
        missing_mode ==> r.0 == Progress::MissingFilesDownloadFinished,
        !missing_mode ==> r.0 == Progress::Finished,
        r.1 is Idle,
{
    if missing_mode {
        (Progress::MissingFilesDownloadFinished, State::Idle)
    } else {
        (Progress::Finished, State::Idle)
    }
}

/// The runtime archive's streamed download was opened: record its size and
/// start pulling chunks.
pub fn java_download_started(folder: String, java: Java, total: u64) -> (r: (Progress, State))
    ensures
        r.0 == Progress::StartedJavaDownload(mib_spec(total as int) as u8),
        r.1 is DownloadingJava && r.1->DownloadingJava_downloaded == 0
            && r.1->DownloadingJava_total == total && r.1->DownloadingJava_folder_to_store@
            == folder@ && r.1->DownloadingJava_java == java,
{
    #[verifier::truncate]
    let mb: u8 = (total / 1048576) as u8;
    (
        Progress::StartedJavaDownload(mb),
        State::DownloadingJava { downloaded: 0, total, folder_to_store: folder, java },
    )
}

/// One chunk of the runtime archive arrived and was written: advance the
/// byte count and report cumulative mebibytes and percentage.
pub fn java_chunk_written(
    downloaded: u64,
    total: u64,
    folder_to_store: String,
    java: Java,
    chunk_len: u64,
) -> (r: (Progress, State))
    requires
        downloaded + chunk_len <= u64::MAX,
    ensures
        r.0 == Progress::JavaDownloadProgressed(
            mib_spec((downloaded + chunk_len) as int) as u8,
            percent_spec((downloaded + chunk_len) as int, total as int) as u8,
        ),
        r.1 is DownloadingJava && r.1->DownloadingJava_downloaded == downloaded + chunk_len
            && r.1->DownloadingJava_total == total && r.1->DownloadingJava_folder_to_store@
            == folder_to_store@ && r.1->DownloadingJava_java == java,
{
    let new_downloaded = downloaded + chunk_len;
    #[verifier::truncate]
    let mb: u8 = (new_downloaded / 1048576) as u8;
    let pct128: u128 = (new_downloaded as u128) * 100 / (if total == 0 {
        1
    } else {
        total as u128
    });
    #[verifier::truncate]
    let pct: u8 = (if total == 0 {
        100u128
    } else {
        pct128
    }) as u8;
    proof {
        if total != 0 {
            assert(pct128 == percent_spec((downloaded + chunk_len) as int, total as int));
        }
    }
    (
        Progress::JavaDownloadProgressed(mb, pct),
        State::DownloadingJava { downloaded: new_downloaded, total, folder_to_store, java },
    )
}

/// The runtime archive's stream ended: move on to extraction.
pub fn java_download_done(folder_to_store: String, java: Java) -> (r: (Progress, State))
    ensures
        r.0 == Progress::JavaDownloadFinished,
        r.1 is ExtractingJava && r.1->ExtractingJava_0@ == folder_to_store@ && r.1->ExtractingJava_1
            == java,
{
    (Progress::JavaDownloadFinished, State::ExtractingJava(folder_to_store, java))
}

/// The runtime archive was unpacked and renamed: the operation is complete.
pub fn java_extracted() -> (r: (Progress, State))
    ensures
        r.0 == Progress::JavaExtracted,
        r.1 is Idle,
{
    (Progress::JavaExtracted, State::Idle)
}

/// The new executable's streamed download was opened.
pub fn update_started(total: u64) -> (r: (Progress, State))
    ensures
        r.0 == Progress::UpdateStarted(mib_spec(total as int) as u8),
        r.1 is DownloadingUpdate && r.1->DownloadingUpdate_downloaded == 0
            && r.1->DownloadingUpdate_total == total,
{
    #[verifier::truncate]
    let mb: u8 = (total / 1048576) as u8;
    (Progress::UpdateStarted(mb), State::DownloadingUpdate { downloaded: 0, total })
}

/// One chunk of the new executable arrived and was written.
pub fn update_chunk_written(downloaded: u64, total: u64, chunk_len: u64) -> (r: (Progress, State))
    requires
        downloaded + chunk_len <= u64::MAX,
    ensures
        r.0 == Progress::UpdateProgressed(
            mib_spec((downloaded + chunk_len) as int) as u8,
            percent_spec((downloaded + chunk_len) as int, total as int) as u8,
            mib_spec(total as int) as u8,
        ),
        r.1 is DownloadingUpdate && r.1->DownloadingUpdate_downloaded == downloaded + chunk_len
            && r.1->DownloadingUpdate_total == total,
{
    let new_downloaded = downloaded + chunk_len;
    #[verifier::truncate]
    let mb: u8 = (new_downloaded / 1048576) as u8;
    let pct128: u128 = (new_downloaded as u128) * 100 / (if total == 0 {
        1
    } else {
        total as u128
    });
    #[verifier::truncate]
    let pct: u8 = (if total == 0 {
        100u128
    } else {
        pct128
    }) as u8;
    #[verifier::truncate]
    let total_mb: u8 = (total / 1048576) as u8;
    proof {
        if total != 0 {
            assert(pct128 == percent_spec((downloaded + chunk_len) as int, total as int));
        }
    }
    (
        Progress::UpdateProgressed(mb, pct, total_mb),
        State::DownloadingUpdate { downloaded: new_downloaded, total },
    )
}

/// The new executable's stream ended: the caller performs the swap.
pub fn update_done() -> (r: (Progress, State))
    ensures
        r.0 == Progress::UpdateFinished,
        r.1 is Idle,
{
    (Progress::UpdateFinished, State::Idle)
}

/// Whether an entry's platform rule lets it apply on `os`: no rule at all, or
/// a rule naming exactly this platform.
pub open spec fn rule_applies(rule: OsRule, os: Os) -> bool {
    match rule {
        OsRule::NoRule => true,
        OsRule::Named(n) => n@ == crate::os_name_spec(os),
        OsRule::Unrecognized => false,
    }
}

/// Whether an entry's platform rule lets it apply on `os`.
pub fn rule_matches(rule: &OsRule, os: Os) -> (r: bool)
    ensures
        r <==> rule_applies(*rule, os),
{
    match rule {
        OsRule::NoRule => true,
        OsRule::Named(n) => strutil::str_eq(n.as_str(), crate::os_name(os)),
        OsRule::Unrecognized => false,
    }
}

/// Whether the legacy classifier map names `os`.
pub open spec fn has_native_key(keys: Seq<String>, os: Os) -> bool {
    exists|i: int| 0 <= i < keys.len() && keys[i]@ == crate::os_name_spec(os)
}

pub(crate) fn has_native_for(keys: &Vec<String>, os: Os) -> (r: bool)
    ensures
        r <==> has_native_key(keys@, os),
{
    let n = keys.len();
    let name = crate::os_name(os);
    let mut i: usize = 0;
    while i < n
        invariant
            i <= n,
            n == keys@.len(),
            name@ == crate::os_name_spec(os),
            forall|j: int| 0 <= j < i ==> keys@[j]@ != crate::os_name_spec(os),
        decreases n - i,
    {
        if strutil::str_eq(keys[i].as_str(), name) {
            return true;
        }
        i = i + 1;
    }
    false
}

/// The URL recorded under the first classifier named `key`: `None` when no
/// classifier has that name, `Some(u)` with the recorded URL otherwise.
pub open spec fn classifier_lookup(
    cls: Seq<(String, Option<String>)>,
    key: Seq<char>,
) -> Option<Option<String>>
    decreases cls.len(),
{
    if cls.len() == 0 {
        Option::None
    } else if cls[0].0@ == key {
        Option::Some(cls[0].1)
    } else {
        classifier_lookup(cls.skip(1), key)
    }
}

fn find_classifier(cls: &Vec<(String, Option<String>)>, key: &str) -> (r: Option<Option<String>>)
    ensures
        match r {
            Option::None => classifier_lookup(cls@, key@) is None,
            Option::Some(u) => classifier_lookup(cls@, key@) is Some && match u {
                Option::None => classifier_lookup(cls@, key@)->0 is None,
                Option::Some(s) => classifier_lookup(cls@, key@)->0 is Some && s@
                    == classifier_lookup(cls@, key@)->0->0@,
            },
        },
{
    let n = cls.len();
    let mut i: usize = 0;
    proof {
        assert(cls@.skip(0) =~= cls@);
    }
    while i < n
        invariant
            i <= n,
            n == cls@.len(),
            classifier_lookup(cls@, key@) == classifier_lookup(cls@.skip(i as int), key@),
        decreases n - i,
    {
        let ghost rest = cls@.skip(i as int);
        proof {
            assert(rest[0] == cls@[i as int]);
            assert(rest.skip(1) =~= cls@.skip(i + 1));
        }
        if strutil::str_eq(cls[i].0.as_str(), key) {
            return match &cls[i].1 {
                Some(u) => Some(Some(u.clone())),
                None => Some(None),
            };
        }
        i = i + 1;
    }
    proof {
        assert(cls@.skip(n as int) =~= Seq::<(String, Option<String>)>::empty());
    }
    None
}

/// The three shapes a library entry can take for path derivation.
#[derive(Debug, Clone, Copy, PartialEq, Eq, Structural)]
pub enum LibShape {
    Natives,
    Normal,
    Old,
}

/// How a library entry is classified: a coordinate naming this platform's
/// natives classifier is a natives bundle; otherwise a classifier-map entry
/// for this platform marks the legacy natives form; everything else is a
/// plain jar.
pub open spec fn shape_spec(name: Seq<char>, has_natives: bool, os: Os) -> LibShape {
    if strutil::contains_seq(name, crate::natives_key_spec(os)) {
        LibShape::Natives
    } else if !has_natives {
        LibShape::Normal
    } else {
        LibShape::Old
    }
}

/// The coordinate split at `:`.
pub open spec fn coord_pieces(name: Seq<char>) -> Seq<Seq<char>> {
    strutil::split_spec(name, seq![':'])
}

/// Whether an entry that applies cannot be planned: a missing coordinate, or
/// too few coordinate pieces for its shape.
pub open spec fn entry_malformed(e: LibraryEntry, os: Os) -> bool {
    match e.name {
        Option::None => true,
        Option::Some(nm) => {
            let pieces = coord_pieces(nm@);
            match shape_spec(nm@, has_native_key(e.natives_keys@, os), os) {
                LibShape::Natives => pieces.len() < 4,
                LibShape::Normal => pieces.len() < 3,
                LibShape::Old => pieces.len() < 3,
            }
        },
    }
}

/// Whether the entry carries a natives classifier for `os` without a URL, so
/// the staging task cannot be formed.
pub open spec fn staging_broken(e: LibraryEntry, os: Os) -> bool {
    match classifier_lookup(e.classifiers@, crate::natives_key_spec(os)) {
        Option::Some(u) => u is None,
        Option::None => false,
    }
}

/// Whether planning fails on this entry.
pub open spec fn entry_err_spec(e: LibraryEntry, os: Os) -> bool {
    rule_applies(e.rule_os, os) && (entry_malformed(e, os) || staging_broken(e, os))
}

/// The path of an entry's artifact below the libraries directory: the first
/// coordinate piece with dots as directory separators, then the remaining
/// pieces as directories, then a `artifact-version[-classifier].jar`
/// filename that depends on the entry's shape.
pub open spec fn lib_rel_spec(name: Seq<char>, has_natives: bool, os: Os) -> Seq<char> {
    let pieces = coord_pieces(name);
    let first = strutil::replace_all_spec(pieces[0], "."@, "/"@);
    let rest = pieces.skip(1);
    match shape_spec(name, has_natives, os) {
        LibShape::Natives => {
            let body = rest.drop_last();
            first + "/"@ + strutil::join_spec(body, "/"@) + "/"@ + body[body.len() - 2] + "-"@
                + body[body.len() - 1] + "-"@ + rest.last() + ".jar"@
        },
        LibShape::Normal => first + "/"@ + strutil::join_spec(rest, "/"@) + "/"@ + rest[rest.len()
            - 2] + "-"@ + rest[rest.len() - 1] + ".jar"@,
        LibShape::Old => first + "/"@ + strutil::join_spec(rest, "/"@) + "/"@ + rest[rest.len() - 2]
            + "-"@ + rest[rest.len() - 1] + "-natives-"@ + crate::os_name_spec(os) + ".jar"@,
    }
}

/// Where an entry's artifact is fetched from: a URL override ending in `/`
/// has the derived path appended, an empty override falls back to the
/// default mirror, and any other override is used as it stands.
pub open spec fn library_url_spec(unmod: Seq<char>, lib: Seq<char>) -> Seq<char> {
    if unmod.len() > 0 && unmod.last() == '/' {
        unmod + lib
    } else if unmod.len() == 0 {
        "https://libraries.minecraft.net/"@ + lib
    } else {
        unmod
    }
}

/// The URL override an entry carries before the default-mirror rule is
/// applied: the artifact URL, else the per-library URL, else (for legacy
/// natives) the classifier URL for this platform or its `-64` variant, else
/// nothing.
pub open spec fn unmodified_url_spec(e: LibraryEntry, os: Os, shape: LibShape) -> Seq<char> {
    if e.artifact_url is Some {
        e.artifact_url->0@
    } else if e.url_override is Some {
        e.url_override->0@
    } else if shape is Old {
        match classifier_lookup(e.classifiers@, crate::natives_key_spec(os)) {
            Option::Some(Option::Some(u)) => u@,
            _ => match classifier_lookup(e.classifiers@, crate::natives_key_spec(os) + "-64"@) {
                Option::Some(Option::Some(u)) => u@,
                _ => Seq::empty(),
            },
        }
    } else {
        Seq::empty()
    }
}

/// The tasks one library entry contributes: nothing when its rule does not
/// apply; otherwise its artifact, plus a staging task when a natives
/// classifier for this platform is present.
pub open spec fn entry_tasks_spec(e: LibraryEntry, os: Os, lib_dir: Seq<char>, folder: Seq<char>) -> Seq<
    (Seq<char>, Seq<char>),
>
    recommends
        !entry_err_spec(e, os),
{
    if !rule_applies(e.rule_os, os) {
        Seq::empty()
    } else {
        let name = e.name->0@;
        let has_natives = has_native_key(e.natives_keys@, os);
        let shape = shape_spec(name, has_natives, os);
        let lib = lib_rel_spec(name, has_natives, os);
        let url = library_url_spec(unmodified_url_spec(e, os, shape), lib);
        let main = seq![(lib_dir + lib, url)];
        match classifier_lookup(e.classifiers@, crate::natives_key_spec(os)) {
            Option::Some(Option::Some(u)) => main + seq![
                (folder + "/natives/natives.jar"@, u@),
            ],
            _ => main,
        }
    }
}

/// The tasks of a whole library list, in order.
pub open spec fn libs_tasks_spec(
    entries: Seq<LibraryEntry>,
    os: Os,
    lib_dir: Seq<char>,
    folder: Seq<char>,
) -> Seq<(Seq<char>, Seq<char>)>
    decreases entries.len(),
{
    if entries.len() == 0 {
        Seq::empty()
    } else {
        libs_tasks_spec(entries.drop_last(), os, lib_dir, folder) + entry_tasks_spec(
            entries.last(),
            os,
            lib_dir,
            folder,
        )
    }
}

/// The source URL of a library artifact, from its recorded URL override and
/// its derived path.
pub fn get_library_url(unmodifiedurl: &str, lib: String) -> (r: String)
    ensures
        r@ == library_url_spec(unmodifiedurl@, lib@),
{
    if strutil::ends_with_char(unmodifiedurl, '/') {
        let mut out = String::from_str(unmodifiedurl);
        out.append(lib.as_str());
        out
    } else if unmodifiedurl.unicode_len() == 0 {
        let mut out = String::from_str("https://libraries.minecraft.net/");
        out.append(lib.as_str());
        out
    } else {
        String::from_str(unmodifiedurl)
    }
}

/// The elements of `v` from `from` on, as owned strings.
fn vec_str_tail(v: &Vec<String>, from: usize) -> (r: Vec<String>)
    requires
        from <= v@.len(),
    ensures
        strutil::str_views(r@) == strutil::str_views(v@).skip(from as int),
{
    let n = v.len();
    let mut out: Vec<String> = Vec::new();
    let mut i: usize = from;
    while i < n
        invariant
            from <= i <= n,
            n == v@.len(),
            out@.len() == i - from,
            forall|j: int| 0 <= j < out@.len() ==> out@[j]@ == v@[from + j]@,
        decreases n - i,
    {
        out.push(v[i].clone());
        i = i + 1;
    }
    proof {
        assert(strutil::str_views(out@) =~= strutil::str_views(v@).skip(from as int));
    }
    out
}

/// The elements of `v` without the last one, as owned strings.
fn vec_str_init(v: &Vec<String>) -> (r: Vec<String>)
    requires
        v@.len() > 0,
    ensures
        strutil::str_views(r@) == strutil::str_views(v@).drop_last(),
{
    let n = v.len();
    let mut out: Vec<String> = Vec::new();
    let mut i: usize = 0;
    while i < n - 1
        invariant
            n == v@.len(),
            n > 0,
            i <= n - 1,
            out@.len() == i,
            forall|j: int| 0 <= j < out@.len() ==> out@[j]@ == v@[j]@,
        decreases n - i,
    {
        out.push(v[i].clone());
        i = i + 1;
    }
    proof {
        assert(strutil::str_views(out@) =~= strutil::str_views(v@).drop_last());
    }
    out
}

/// The pairs of path and URL that a list of downloads denotes.
pub open spec fn download_views(s: Seq<Download>) -> Seq<(Seq<char>, Seq<char>)> {
    s.map_values(|d: Download| (d.path@, d.url@))
}

/// The tasks of one library entry, or the reason it cannot be planned.
/// The relative path of one artifact below the libraries directory, or the
/// reason its coordinate cannot be decomposed.
pub(crate) fn lib_rel_path(nm: &String, has_nat: bool, os: Os) -> (r: Result<String, String>)
    ensures
        r is Ok ==> r->Ok_0@ == lib_rel_spec(nm@, has_nat, os),
        r is Err <==> (match shape_spec(nm@, has_nat, os) {
            LibShape::Natives => coord_pieces(nm@).len() < 4,
            LibShape::Normal => coord_pieces(nm@).len() < 3,
            LibShape::Old => coord_pieces(nm@).len() < 3,
        }),
{
    let pieces = strutil::split_char(nm.as_str(), ':');
    proof {
        strutil::lemma_split_len_pos(nm@, seq![':'], Seq::empty());
        assert(pieces@.len() == coord_pieces(nm@).len());
    }
    let is_natives = strutil::contains_sub(nm.as_str(), crate::natives_key(os));
    if is_natives {
        if pieces.len() < 4 {
            return Err(String::from_str("library coordinate with too few pieces"));
        }
    } else {
        if pieces.len() < 3 {
            return Err(String::from_str("library coordinate with too few pieces"));
        }
    }
    proof {
        reveal_strlit(".");
    }
    let first = strutil::replace_all(pieces[0].as_str(), ".", "/");
    let rest = vec_str_tail(&pieces, 1);
    let ghost rest_v = coord_pieces(nm@).skip(1);
    proof {
        assert(rest_v =~= strutil::str_views(pieces@).skip(1));
    }
    let mut lib = String::new();
    lib.append(first.as_str());
    lib.append("/");
    if is_natives {
        let body = vec_str_init(&rest);
        let ghost body_v = rest_v.drop_last();
        let joined = strutil::join_with(&body, "/");
        lib.append(joined.as_str());
        lib.append("/");
        lib.append(body[body.len() - 2].as_str());
        lib.append("-");
        lib.append(body[body.len() - 1].as_str());
        lib.append("-");
        lib.append(rest[rest.len() - 1].as_str());
        lib.append(".jar");
        proof {
            assert(body_v[body_v.len() - 2] == body@[body@.len() - 2]@);
            assert(body_v[body_v.len() - 1] == body@[body@.len() - 1]@);
            assert(rest_v.last() == rest@[rest@.len() - 1]@);
            assert(lib@ =~= lib_rel_spec(nm@, has_nat, os));
        }
    } else {
        let joined = strutil::join_with(&rest, "/");
        lib.append(joined.as_str());
        lib.append("/");
        lib.append(rest[rest.len() - 2].as_str());
        lib.append("-");
        lib.append(rest[rest.len() - 1].as_str());
        if has_nat {
            lib.append("-natives-");
            lib.append(crate::os_name(os));
            lib.append(".jar");
        } else {
            lib.append(".jar");
        }
        proof {
            assert(rest_v[rest_v.len() - 2] == rest@[rest@.len() - 2]@);
            assert(rest_v[rest_v.len() - 1] == rest@[rest@.len() - 1]@);
            assert(lib@ =~= lib_rel_spec(nm@, has_nat, os));
        }
    }
    Ok(lib)
}

fn entry_tasks(e: &LibraryEntry, os: Os, lib_dir: &String, folder: &String) -> (r: Result<
    Vec<Download>,
    String,
>)
    ensures
        r is Ok ==> !entry_err_spec(*e, os) && download_views(r->Ok_0@) == entry_tasks_spec(
            *e,
            os,
            lib_dir@,
            folder@,
        ),
        r is Err <==> entry_err_spec(*e, os),
{
    let mut out: Vec<Download> = Vec::new();
    if !rule_matches(&e.rule_os, os) {
        proof {
            assert(download_views(out@) =~= entry_tasks_spec(*e, os, lib_dir@, folder@));
        }
        return Ok(out);
    }
    let nm = match &e.name {
        Some(nm) => nm,
        None => {
            return Err(String::from_str("library entry without a name"));
        },
    };
    let has_nat = has_native_for(&e.natives_keys, os);
    let is_natives = strutil::contains_sub(nm.as_str(), crate::natives_key(os));
    let ghost shape = shape_spec(nm@, has_native_key(e.natives_keys@, os), os);
    let lib = match lib_rel_path(nm, has_nat, os) {
        Ok(l) => l,
        Err(m) => {
            return Err(m);
        },
    };
    let unmod: String = if let Some(u) = &e.artifact_url {
        u.clone()
    } else if let Some(u) = &e.url_override {
        u.clone()
    } else if is_natives || !has_nat {
        String::new()
    } else {
        match find_classifier(&e.classifiers, crate::natives_key(os)) {
            Some(Some(u)) => u,
            _ => {
                let mut k64 = String::from_str(crate::natives_key(os));
                k64.append("-64");
                match find_classifier(&e.classifiers, k64.as_str()) {
                    Some(Some(u)) => u,
                    _ => String::new(),
                }
            },
        }
    };
    proof {
        assert(unmod@ == unmodified_url_spec(*e, os, shape));
    }
    let mut path = lib_dir.clone();
    path.append(lib.as_str());
    let ghost lib_v = lib@;
    let url = get_library_url(unmod.as_str(), lib);
    out.push(Download { path, url });
    match find_classifier(&e.classifiers, crate::natives_key(os)) {
        Some(Some(u)) => {
            let mut sp = folder.clone();
            sp.append("/natives/natives.jar");
            out.push(Download { path: sp, url: u });
            proof {
                assert(download_views(out@) =~= entry_tasks_spec(*e, os, lib_dir@, folder@));
            }
        },
        Some(None) => {
            return Err(String::from_str("natives classifier without a url"));
        },
        None => {
            proof {
                assert(download_views(out@) =~= entry_tasks_spec(*e, os, lib_dir@, folder@));
            }
        },
    }
    Ok(out)
}

/// The download tasks of a library list on `os`: every entry whose platform
/// rule applies contributes its artifact below `<mc_dir>/libraries/`, and a
/// natives staging task under `<foldertosave>/natives/` when it carries a
/// natives classifier for this platform. Fails exactly when an applying
/// entry is malformed.
pub fn get_libraries(
    mc_dir: &String,
    libraries: &Vec<LibraryEntry>,
    foldertosave: &String,
    os: Os,
) -> (r: Result<Vec<Download>, String>)
    ensures
        r is Ok ==> download_views(r->Ok_0@) == libs_tasks_spec(
            libraries@,
            os,
            mc_dir@ + "/libraries/"@,
            foldertosave@,
        ),
        r is Err <==> exists|i: int|
            0 <= i < libraries@.len() && entry_err_spec(libraries@[i], os),
{
    let mut lib_dir = mc_dir.clone();
    lib_dir.append("/libraries/");
    let mut out: Vec<Download> = Vec::new();
    let n = libraries.len();
    let mut idx: usize = 0;
    proof {
        assert(libraries@.take(0) =~= Seq::<LibraryEntry>::empty());
        assert(download_views(out@) =~= libs_tasks_spec(
            libraries@.take(0),
            os,
            lib_dir@,
            foldertosave@,
        ));
    }
    while idx < n
        invariant
            idx <= n,
            n == libraries@.len(),
            lib_dir@ == mc_dir@ + "/libraries/"@,
            download_views(out@) == libs_tasks_spec(
                libraries@.take(idx as int),
                os,
                lib_dir@,
                foldertosave@,
            ),
            forall|j: int| 0 <= j < idx ==> !entry_err_spec(libraries@[j], os),
        decreases n - idx,
    {
        proof {
            assert(libraries@.take(idx + 1).drop_last() =~= libraries@.take(idx as int));
            assert(libraries@.take(idx + 1).last() == libraries@[idx as int]);
        }
        match entry_tasks(&libraries[idx], os, &lib_dir, foldertosave) {
            Ok(mut tasks) => {
                let ghost out0 = out@;
                let ghost tasks_v = tasks@;
                out.append(&mut tasks);
                proof {
                    assert(out@ =~= out0 + tasks_v);
                    assert(download_views(out0 + tasks_v) =~= download_views(out0)
                        + download_views(tasks_v));
                }
            },
            Err(msg) => {
                return Err(msg);
            },
        }
        idx = idx + 1;
    }
    proof {
        assert(libraries@.take(n as int) =~= libraries@);
    }
    Ok(out)
}

/// The piece of outside work the engine's current state asks for. The
/// driver performs it and reports the outcome through the matching
/// transition function.
pub enum Action {
    /// Fetch the metadata documents and build the download plan.
    BuildList { version: String, version_type: VersionType },
    /// Download one file to its path (creating parent directories), and for
    /// a natives staging jar unpack it into `natives_dir` and delete it.
    FetchFile { download: Download, extract_natives: bool, natives_dir: String },
    /// The queue is empty: report completion through `queue_drained`.
    Finish { missing_mode: bool },
    /// Open a streamed download of the runtime archive into `archive_path`.
    StartJavaFetch { url: String, folder: String, archive_path: String },
    /// Pull one chunk of the runtime archive stream.
    PullJavaChunk,
    /// Unpack the archive into `folder`, rename its single top directory to
    /// `final_dir`, and delete the archive.
    ExtractJavaArchive { archive_path: String, folder: String, final_dir: String },
    /// Open a streamed download of the new executable.
    StartUpdateFetch { url: String },
    /// Pull one chunk of the new executable's stream.
    PullUpdateChunk,
    /// Stay suspended.
    Suspend,
}

/// What outside work the current state asks for. Note that a `FetchFile`
/// action is emitted for the head of the queue whenever the queue is
/// non-empty: the engine itself never skips a task, whatever is already on
/// disk — dropping already-present files is the planner's filtering step.
pub fn next_action(state: &State, mc_dir: &String, os: Os) -> (a: Action)
    ensures
        match state {
            State::GettingDownloadList(v, t) => a is BuildList && a->BuildList_version@ == v@
                && a->BuildList_version_type == t,
            State::Downloading(dl) => {
                if dl.download_list@.len() == 0 {
                    a is Finish && !a->Finish_missing_mode
                } else {
                    &&& a is FetchFile
                    &&& a->FetchFile_download == dl.download_list@[0]
                    &&& a->FetchFile_extract_natives <==> is_staging_path(
                        dl.download_list@[0].path@,
                    )
                    &&& a->FetchFile_natives_dir@ == strutil::replace_all_spec(
                        dl.download_list@[0].path@,
                        "/natives.jar"@,
                        Seq::<char>::empty(),
                    )
                }
            },
            State::DownloadingMissingFiles(dl) => {
                if dl.download_list@.len() == 0 {
                    a is Finish && a->Finish_missing_mode
                } else {
                    &&& a is FetchFile
                    &&& a->FetchFile_download == dl.download_list@[0]
                    &&& a->FetchFile_extract_natives <==> is_staging_path(
                        dl.download_list@[0].path@,
                    )
                    &&& a->FetchFile_natives_dir@ == strutil::replace_all_spec(
                        dl.download_list@[0].path@,
                        "/natives.jar"@,
                        Seq::<char>::empty(),
                    )
                }
            },
            State::PreparingJavaDownload(java) => {
                &&& a is StartJavaFetch
                &&& a->StartJavaFetch_url@ == java_url_spec(*java, os)
                &&& a->StartJavaFetch_folder@ == mc_dir@ + "/minelander_java"@
                &&& a->StartJavaFetch_archive_path@ == mc_dir@ + "/minelander_java"@ + "/"@
                    + archive_name_spec(os)
            },
            State::DownloadingJava { .. } => a is PullJavaChunk,
            State::ExtractingJava(folder, java) => {
                &&& a is ExtractJavaArchive
                &&& a->ExtractJavaArchive_archive_path@ == folder@ + "/"@ + archive_name_spec(os)
                &&& a->ExtractJavaArchive_folder@ == folder@
                &&& a->ExtractJavaArchive_final_dir@ == folder@ + "/"@ + java_folder_spec(*java)
            },
            State::PreparingUpdate(url) => a is StartUpdateFetch && a->StartUpdateFetch_url@
                == url@,
            State::DownloadingUpdate { .. } => a is PullUpdateChunk,
            State::Idle => a is Suspend,
        },
{
    match state {
        State::GettingDownloadList(v, t) => Action::BuildList {
            version: v.clone(),
            version_type: t.clone(),
        },
        State::Downloading(dl) => {
            if dl.download_list.len() == 0 {
                Action::Finish { missing_mode: false }
            } else {
                let head = &dl.download_list[0];
                let download = Download { path: head.path.clone(), url: head.url.clone() };
                let extract_natives = is_natives_staging(head.path.as_str());
                let natives_dir = natives_dir_of(head.path.as_str());
                Action::FetchFile { download, extract_natives, natives_dir }
            }
        },
        State::DownloadingMissingFiles(dl) => {
            if dl.download_list.len() == 0 {
                Action::Finish { missing_mode: true }
            } else {
                let head = &dl.download_list[0];
                let download = Download { path: head.path.clone(), url: head.url.clone() };
                let extract_natives = is_natives_staging(head.path.as_str());
                let natives_dir = natives_dir_of(head.path.as_str());
                Action::FetchFile { download, extract_natives, natives_dir }
            }
        },
        State::PreparingJavaDownload(java) => {
            let mut folder = mc_dir.clone();
            folder.append("/minelander_java");
            let mut archive_path = folder.clone();
            archive_path.append("/");
            archive_path.append(archive_file_name(os));
            Action::StartJavaFetch {
                url: String::from_str(java_url(java, os)),
                folder,
                archive_path,
            }
        },
        State::DownloadingJava { .. } => Action::PullJavaChunk,
        State::ExtractingJava(folder, java) => {
            let mut archive_path = folder.clone();
            archive_path.append("/");
            archive_path.append(archive_file_name(os));
            let mut final_dir = folder.clone();
            final_dir.append("/");
            final_dir.append(java_folder_name(java));
            Action::ExtractJavaArchive { archive_path, folder: folder.clone(), final_dir }
        },
        State::PreparingUpdate(url) => Action::StartUpdateFetch { url: url.clone() },
        State::DownloadingUpdate { .. } => Action::PullUpdateChunk,
        State::Idle => Action::Suspend,
    }
}

/// A library entry whose platform rule names another platform, or something
/// unrecognized, contributes no tasks at all.
pub proof fn lemma_rule_mismatch_no_tasks(
    e: LibraryEntry,
    os: Os,
    lib_dir: Seq<char>,
    folder: Seq<char>,
)
    requires
        !rule_applies(e.rule_os, os),
    ensures
        entry_tasks_spec(e, os, lib_dir, folder) == Seq::<(Seq<char>, Seq<char>)>::empty(),
{
}

/// Planning is deterministic: two runs over the same descriptors, asset
/// index and target layout produce the same tasks, in the same order.
pub proof fn lemma_plan_deterministic(
    vanilla1: VersionDescriptor,
    overlay1: Option<VersionDescriptor>,
    index1: AssetIndex,
    version1: Seq<char>,
    vtype1: VersionType,
    mc_dir1: Seq<char>,
    os1: Os,
    vanilla2: VersionDescriptor,
    overlay2: Option<VersionDescriptor>,
    index2: AssetIndex,
    version2: Seq<char>,
    vtype2: VersionType,
    mc_dir2: Seq<char>,
    os2: Os,
)
    requires
        vanilla1 == vanilla2,
        overlay1 == overlay2,
        index1 == index2,
        version1 == version2,
        vtype1 == vtype2,
        mc_dir1 == mc_dir2,
        os1 == os2,
    ensures
        plan_spec(vanilla1, overlay1, index1, version1, vtype1, mc_dir1, os1) == plan_spec(
            vanilla2,
            overlay2,
            index2,
            version2,
            vtype2,
            mc_dir2,
            os2,
        ),
{
}

/// The one task an asset object contributes. Its URL is derived from the
/// content hash alone (first two hex characters as a fan-out directory); so
/// is its object-store path, while the legacy `resources` layout files it
/// under its logical name instead.
pub open spec fn asset_task_spec(
    key: Seq<char>,
    hash: Seq<char>,
    map_to_resources: bool,
    mc_dir: Seq<char>,
) -> (Seq<char>, Seq<char>)
    recommends
        hash.len() >= 2,
{
    let url = "https://resources.download.minecraft.net/"@ + hash.take(2) + "/"@ + hash;
    if map_to_resources {
        (mc_dir + "/resources"@ + "/"@ + key, url)
    } else {
        (mc_dir + "/assets/objects/"@ + hash.take(2) + "/"@ + hash, url)
    }
}

/// The tasks of a whole asset index, one per listed object in order;
/// entries without a hash contribute nothing.
pub open spec fn asset_tasks_spec(
    objects: Seq<(String, Option<String>)>,
    map_to_resources: bool,
    mc_dir: Seq<char>,
) -> Seq<(Seq<char>, Seq<char>)>
    decreases objects.len(),
{
    if objects.len() == 0 {
        Seq::empty()
    } else {
        let rest = asset_tasks_spec(objects.drop_last(), map_to_resources, mc_dir);
        match objects.last().1 {
            Option::None => rest,
            Option::Some(h) => rest.push(
                asset_task_spec(objects.last().0@, h@, map_to_resources, mc_dir),
            ),
        }
    }
}

/// Whether an asset index cannot be planned: some hash is too short to give
/// the two-character fan-out directory.
pub open spec fn asset_err_spec(objects: Seq<(String, Option<String>)>) -> bool {
    exists|i: int|
        0 <= i < objects.len() && objects[i].1 is Some && objects[i].1->0@.len() < 2
}

/// The download tasks of an asset index: one per object that carries a hash,
/// content-addressed under `<mc_dir>/assets/objects/` (or filed under
/// `<mc_dir>/resources/` for the legacy layout).
pub fn get_assets(mc_dir: &String, asset_index: &AssetIndex) -> (r: Result<Vec<Download>, String>)
    ensures
        r is Ok ==> download_views(r->Ok_0@) == asset_tasks_spec(
            asset_index.objects@,
            asset_index.map_to_resources,
            mc_dir@,
        ),
        r is Err <==> asset_err_spec(asset_index.objects@),
{
    let objects = &asset_index.objects;
    let n = objects.len();
    let mut out: Vec<Download> = Vec::new();
    let mut i: usize = 0;
    proof {
        assert(objects@.take(0) =~= Seq::<(String, Option<String>)>::empty());
        assert(download_views(out@) =~= asset_tasks_spec(
            objects@.take(0),
            asset_index.map_to_resources,
            mc_dir@,
        ));
    }
    while i < n
        invariant
            i <= n,
            n == objects@.len(),
            objects == asset_index.objects,
            download_views(out@) == asset_tasks_spec(
                objects@.take(i as int),
                asset_index.map_to_resources,
                mc_dir@,
            ),
            forall|j: int|
                0 <= j < i ==> !(objects@[j].1 is Some && objects@[j].1->0@.len() < 2),
        decreases n - i,
    {
        proof {
            assert(objects@.take(i + 1).drop_last() =~= objects@.take(i as int));
            assert(objects@.take(i + 1).last() == objects@[i as int]);
        }
        if let Some(hash) = &objects[i].1 {
            let hlen = hash.unicode_len();
            if hlen < 2 {
                return Err(String::from_str("asset hash too short"));
            }
            let fan = hash.substring_char(0, 2);
            let key = &objects[i].0;
            let mut url = String::from_str("https://resources.download.minecraft.net/");
            url.append(fan);
            url.append("/");
            url.append(hash.as_str());
            let mut path = mc_dir.clone();
            if asset_index.map_to_resources {
                path.append("/resources");
                path.append("/");
                path.append(key.as_str());
            } else {
                path.append("/assets/objects/");
                path.append(fan);
                path.append("/");
                path.append(hash.as_str());
            }
            let ghost out0 = out@;
            out.push(Download { path, url });
            proof {
                assert(fan@ == hash@.take(2));
                assert(download_views(out@) =~= download_views(out0).push(
                    asset_task_spec(key@, hash@, asset_index.map_to_resources, mc_dir@),
                ));
            }
        }
        i = i + 1;
    }
    proof {
        assert(objects@.take(n as int) =~= objects@);
    }
    Ok(out)
}

/// The full download plan of a version: its client jar, every asset of its
/// asset index, its base libraries, and (for a loader install) the overlay's
/// libraries, in that order. The target directory layout hangs off `mc_dir`;
/// `version` and `version_type` name the version directory.
pub open spec fn plan_spec(
    vanilla: VersionDescriptor,
    overlay: Option<VersionDescriptor>,
    asset_index: AssetIndex,
    version: Seq<char>,
    version_type: VersionType,
    mc_dir: Seq<char>,
    os: Os,
) -> Seq<(Seq<char>, Seq<char>)> {
    let vname = version_name_spec(version, version_type);
    let vfolder = mc_dir + "/versions/"@ + vname;
    let client = (vfolder + "/"@ + vname + ".jar"@, vanilla.client_url->0@);
    let lib_dir = mc_dir + "/libraries/"@;
    seq![client] + asset_tasks_spec(asset_index.objects@, asset_index.map_to_resources, mc_dir)
        + libs_tasks_spec(vanilla.libraries@, os, lib_dir, vfolder) + match overlay {
        Option::Some(o) => libs_tasks_spec(o.libraries@, os, lib_dir, vfolder),
        Option::None => Seq::empty(),
    }
}

/// Whether planning a version fails: no client URL, a bad asset hash, or a
/// malformed applying library entry in either descriptor.
pub open spec fn plan_err_spec(
    vanilla: VersionDescriptor,
    overlay: Option<VersionDescriptor>,
    asset_index: AssetIndex,
    os: Os,
) -> bool {
    ||| vanilla.client_url is None
    ||| asset_err_spec(asset_index.objects@)
    ||| exists|i: int|
        0 <= i < vanilla.libraries@.len() && entry_err_spec(vanilla.libraries@[i], os)
    ||| (overlay is Some && exists|i: int|
        0 <= i < overlay->0.libraries@.len() && entry_err_spec(overlay->0.libraries@[i], os))
}

/// The full download plan of a version, before the filesystem diff.
pub fn plan(
    vanilla: &VersionDescriptor,
    overlay: Option<&VersionDescriptor>,
    asset_index: &AssetIndex,
    version: &str,
    version_type: &VersionType,
    mc_dir: &String,
    os: Os,
) -> (r: Result<Vec<Download>, String>)
    ensures
        r is Ok ==> download_views(r->Ok_0@) == plan_spec(
            *vanilla,
            match overlay {
                Option::Some(o) => Option::Some(*o),
                Option::None => Option::None,
            },
            *asset_index,
            version@,
            *version_type,
            mc_dir@,
            os,
        ),
        r is Err <==> plan_err_spec(
            *vanilla,
            match overlay {
                Option::Some(o) => Option::Some(*o),
                Option::None => Option::None,
            },
            *asset_index,
            os,
        ),
{
    let client_url = match &vanilla.client_url {
        Some(u) => u.clone(),
        None => {
            return Err(String::from_str("descriptor without a client download url"));
        },
    };
    let vname = version_dir_name(version, version_type);
    let mut vfolder = mc_dir.clone();
    vfolder.append("/versions/");
    vfolder.append(vname.as_str());
    let mut client_path = vfolder.clone();
    client_path.append("/");
    client_path.append(vname.as_str());
    client_path.append(".jar");
    let mut out: Vec<Download> = Vec::new();
    out.push(Download { path: client_path, url: client_url });
    let mut assets = match get_assets(mc_dir, asset_index) {
        Ok(a) => a,
        Err(e) => {
            return Err(e);
        },
    };
    let ghost out_client = out@;
    let ghost assets_v = assets@;
    out.append(&mut assets);
    proof {
        assert(out@ =~= out_client + assets_v);
        assert(download_views(out_client + assets_v) =~= download_views(out_client)
            + download_views(assets_v));
    }
    let mut base_libs = match get_libraries(mc_dir, &vanilla.libraries, &vfolder, os) {
        Ok(l) => l,
        Err(e) => {
            return Err(e);
        },
    };
    let ghost out_assets = out@;
    let ghost base_v = base_libs@;
    out.append(&mut base_libs);
    proof {
        assert(out@ =~= out_assets + base_v);
        assert(download_views(out_assets + base_v) =~= download_views(out_assets)
            + download_views(base_v));
    }
    if let Some(o) = overlay {
        let mut overlay_libs = match get_libraries(mc_dir, &o.libraries, &vfolder, os) {
            Ok(l) => l,
            Err(e) => {
                return Err(e);
            },
        };
        let ghost out_base = out@;
        let ghost over_v = overlay_libs@;
        out.append(&mut overlay_libs);
        proof {
            assert(out@ =~= out_base + over_v);
            assert(download_views(out_base + over_v) =~= download_views(out_base)
                + download_views(over_v));
        }
    }
    proof {
        assert(download_views(out@) =~= plan_spec(
            *vanilla,
            match overlay {
                Option::Some(o) => Option::Some(*o),
                Option::None => Option::None,
            },
            *asset_index,
            version@,
            *version_type,
            mc_dir@,
            os,
        ));
    }
    Ok(out)
}

/// Drops every task whose target already exists: the incremental part of
/// planning. `exists_flags[i]` says whether `tasks[i]`'s path is already on
/// disk.
pub open spec fn filter_missing_spec(
    tasks: Seq<Download>,
    exists_flags: Seq<bool>,
) -> Seq<Download>
    decreases tasks.len(),
{
    if tasks.len() == 0 {
        Seq::empty()
    } else {
        let rest = filter_missing_spec(tasks.drop_last(), exists_flags.drop_last());
        if exists_flags.last() {
            rest
        } else {
            rest.push(tasks.last())
        }
    }
}

/// Keeps exactly the tasks whose target path does not exist yet.
pub fn filter_missing(tasks: Vec<Download>, exists_flags: &Vec<bool>) -> (r: Vec<Download>)
    requires
        tasks@.len() == exists_flags@.len(),
    ensures
        r@ == filter_missing_spec(tasks@, exists_flags@),
{
    let n = tasks.len();
    let mut out: Vec<Download> = Vec::new();
    let mut i: usize = 0;
    while i < n
        invariant
            i <= n,
            n == tasks@.len(),
            n == exists_flags@.len(),
            out@ == filter_missing_spec(tasks@.take(i as int), exists_flags@.take(i as int)),
        decreases n - i,
    {
        proof {
            assert(tasks@.take(i + 1).drop_last() =~= tasks@.take(i as int));
            assert(exists_flags@.take(i + 1).drop_last() =~= exists_flags@.take(i as int));
            assert(tasks@.take(i + 1).last() == tasks@[i as int]);
            assert(exists_flags@.take(i + 1).last() == exists_flags@[i as int]);
        }
        if !exists_flags[i] {
            let t = &tasks[i];
            out.push(Download { path: t.path.clone(), url: t.url.clone() });
        }
        i = i + 1;
    }
    proof {
        assert(tasks@.take(n as int) =~= tasks@);
        assert(exists_flags@.take(n as int) =~= exists_flags@);
    }
    out
}

/// A task whose target already exists — at every position it occupies in the
/// plan — does not survive the filtering stage.
pub proof fn lemma_filter_excludes_existing(
    tasks: Seq<Download>,
    exists_flags: Seq<bool>,
    t: Download,
)
    requires
        tasks.len() == exists_flags.len(),
        forall|j: int| 0 <= j < tasks.len() && tasks[j] == t ==> exists_flags[j],
    ensures
        !filter_missing_spec(tasks, exists_flags).contains(t),
    decreases tasks.len(),
{
    if tasks.len() > 0 {
        lemma_filter_excludes_existing(tasks.drop_last(), exists_flags.drop_last(), t);
        let rest = filter_missing_spec(tasks.drop_last(), exists_flags.drop_last());
        if !exists_flags.last() {
            assert(tasks.last() != t);
            assert forall|k: int|
                0 <= k < rest.push(tasks.last()).len() implies rest.push(tasks.last())[k]
                != t by {
                if k < rest.len() {
                    assert(!rest.contains(t));
                }
            }
        }
    }
}

/// A task whose target is absent survives the filtering stage.
pub proof fn lemma_filter_keeps_missing(tasks: Seq<Download>, exists_flags: Seq<bool>, i: int)
    requires
        tasks.len() == exists_flags.len(),
        0 <= i < tasks.len(),
        !exists_flags[i],
    ensures
        filter_missing_spec(tasks, exists_flags).contains(tasks[i]),
    decreases tasks.len(),
{
    if i == tasks.len() - 1 {
        let rest = filter_missing_spec(tasks.drop_last(), exists_flags.drop_last());
        assert(rest.push(tasks.last())[rest.len() as int] == tasks.last());
    } else {
        lemma_filter_keeps_missing(tasks.drop_last(), exists_flags.drop_last(), i);
        let rest = filter_missing_spec(tasks.drop_last(), exists_flags.drop_last());
        let k = choose|k: int| 0 <= k < rest.len() && rest[k] == tasks.drop_last()[i];
        if exists_flags.last() {
        } else {
            assert(rest.push(tasks.last())[k] == tasks[i]);
        }
    }
}

/// In the content-addressed layout, an asset's target path and URL are
/// functions of its hash alone: two assets with the same hash land at the
/// same path, whatever their logical names.
pub proof fn lemma_asset_path_content_addressed(
    key1: Seq<char>,
    key2: Seq<char>,
    hash: Seq<char>,
    mc_dir: Seq<char>,
)
    ensures
        asset_task_spec(key1, hash, false, mc_dir) == asset_task_spec(key2, hash, false, mc_dir),
{
}

/// Asset task generation is idempotent: run twice over the same index it
/// produces the same tasks, and in particular the same path for the same
/// hash.
pub proof fn lemma_asset_tasks_idempotent(
    objects1: Seq<(String, Option<String>)>,
    map1: bool,
    mc_dir1: Seq<char>,
    objects2: Seq<(String, Option<String>)>,
    map2: bool,
    mc_dir2: Seq<char>,
)
    requires
        objects1 == objects2,
        map1 == map2,
        mc_dir1 == mc_dir2,
    ensures
        asset_tasks_spec(objects1, map1, mc_dir1) == asset_tasks_spec(objects2, map2, mc_dir2),
{
}

} // verus!
