//! The small state holders the user interface drives, and the parsing of
//! the free-form launch settings it collects: wrapper command words,
//! environment variable pairs, and the runtime policy name.
use crate::downloader::{DownloadList, Java, VersionType};
use crate::launcher::{GameSettings, JavaType};
use crate::strutil;
use vstd::prelude::*;

verus! {

/// Where the launch driver stands.
#[derive(Debug)]
pub enum LauncherState {
    Idle,
    Waiting,
    Launching(Box<GameSettings>),
    GettingLogs,
}

/// The handle the user interface keeps on the launch machine.
#[derive(Debug)]
pub struct Launcher {
    pub state: LauncherState,
}

impl Default for Launcher {
    /// A launcher at rest.
    fn default() -> (r: Launcher)
        ensures
            r.state is Idle,
    {
        Launcher { state: LauncherState::Idle }
    }
}

impl Launcher {
    /// Asks for a launch of `game_settings` on the next drive.
    pub fn start(&mut self, game_settings: GameSettings)
        ensures
            final(self).state is Launching && *final(self).state->Launching_0 == game_settings,
    {
        self.state = LauncherState::Launching(Box::new(game_settings))
    }
}

/// Where a download driver stands.
pub enum DownloaderState {
    Idle,
    Downloading(String, VersionType),
    JavaDownloading(Java),
    DownloadingMissingFiles(DownloadList),
    Update(String),
}

/// The handle the user interface keeps on one download machine.
pub struct Downloader {
    pub state: DownloaderState,
    pub id: usize,
}

impl Default for Downloader {
    /// A download driver at rest, with the default identity tag.
    fn default() -> (r: Downloader)
        ensures
            r.state is Idle,
            r.id == 0,
    {
        Downloader { state: DownloaderState::Idle, id: 0 }
    }
}

impl Downloader {
    /// A download driver at rest, with its own identity tag so progress can
    /// be routed back to it.
    pub fn new(id: usize) -> (r: Downloader)
        ensures
            r.state is Idle,
            r.id == id,
    {
        Downloader { state: DownloaderState::Idle, id }
    }

    /// Asks for a full install of a version on the next drive.
    pub fn start(&mut self, version: String, version_type: VersionType)
        ensures
            final(self).state is Downloading && final(self).state->Downloading_0@ == version@
                && final(self).state->Downloading_1 == version_type,
            final(self).id == old(self).id,
    {
        self.state = DownloaderState::Downloading(version, version_type)
    }

    /// Asks for a managed runtime install on the next drive.
    pub fn start_java(&mut self, java: Java)
        ensures
            final(self).state is JavaDownloading && final(self).state->JavaDownloading_0 == java,
            final(self).id == old(self).id,
    {
        self.state = DownloaderState::JavaDownloading(java)
    }

    /// Asks for a self-update download on the next drive.
    pub fn start_update(&mut self, url: String)
        ensures
            final(self).state is Update && final(self).state->Update_0@ == url@,
            final(self).id == old(self).id,
    {
        self.state = DownloaderState::Update(url)
    }

    /// Asks for a repair download of the given files on the next drive.
    pub fn start_missing_files(&mut self, files: Vec<crate::downloader::Download>)
        ensures
            final(self).state is DownloadingMissingFiles
                && final(self).state->DownloadingMissingFiles_0.download_list == files,
            final(self).id == old(self).id,
    {
        self.state = DownloaderState::DownloadingMissingFiles(
            DownloadList { download_list: files },
        )
    }
}

/// The environment pairs a settings string denotes: each space-separated
/// word that splits at `=` into two or more pieces yields its first piece as
/// the name and its second as the value.
pub open spec fn env_pairs_spec(words: Seq<Seq<char>>) -> Seq<(Seq<char>, Seq<char>)>
    decreases words.len(),
{
    if words.len() == 0 {
        Seq::empty()
    } else {
        let rest = env_pairs_spec(words.drop_last());
        let parts = strutil::split_spec(words.last(), seq!['=']);
        if parts.len() >= 2 {
            rest.push((parts[0], parts[1]))
        } else {
            rest
        }
    }
}

/// The environment variable pairs of a space-separated `NAME=value` string.
pub fn parse_env_pairs(s: &str) -> (r: Vec<(String, String)>)
    ensures
        r@.len() == env_pairs_spec(strutil::split_spec(s@, seq![' '])).len(),
        forall|i: int|
            0 <= i < r@.len() ==> #[trigger] r@[i].0@ == env_pairs_spec(
                strutil::split_spec(s@, seq![' ']),
            )[i].0 && r@[i].1@ == env_pairs_spec(strutil::split_spec(s@, seq![' ']))[i].1,
{
    let words = strutil::split_char(s, ' ');
    let ghost words_v = strutil::str_views(words@);
    let n = words.len();
    let mut out: Vec<(String, String)> = Vec::new();
    let mut i: usize = 0;
    proof {
        assert(words_v.take(0) =~= Seq::<Seq<char>>::empty());
    }
    while i < n
        invariant
            i <= n,
            n == words@.len(),
            words_v == strutil::str_views(words@),
            out@.len() == env_pairs_spec(words_v.take(i as int)).len(),
            forall|j: int|
                0 <= j < out@.len() ==> #[trigger] out@[j].0@ == env_pairs_spec(
                    words_v.take(i as int),
                )[j].0 && out@[j].1@ == env_pairs_spec(words_v.take(i as int))[j].1,
        decreases n - i,
    {
        proof {
            assert(words_v.take(i + 1).drop_last() =~= words_v.take(i as int));
            assert(words_v.take(i + 1).last() == words@[i as int]@);
        }
        let parts = strutil::split_char(words[i].as_str(), '=');
        if parts.len() >= 2 {
            out.push((parts[0].clone(), parts[1].clone()));
        }
        i = i + 1;
    }
    proof {
        assert(words_v.take(n as int) =~= words_v);
    }
    out
}

/// The runtime policy a settings name denotes; an unrecognized name means a
/// custom runtime of that name.
pub fn java_type_from_name(name: &str) -> (r: JavaType)
    ensures
        r == (if name@ == "Automatic"@ {
            JavaType::Automatic
        } else if name@ == "System Java"@ {
            JavaType::System
        } else if name@ == "Java 8 (Minelander)"@ {
            JavaType::LauncherJava8
        } else if name@ == "Java 17 (Minelander)"@ {
            JavaType::LauncherJava17
        } else if name@ == "Java 21 (Minelander)"@ {
            JavaType::LauncherJava21
        } else {
            JavaType::Custom
        }),
{
    if strutil::str_eq(name, "Automatic") {
        JavaType::Automatic
    } else if strutil::str_eq(name, "System Java") {
        JavaType::System
    } else if strutil::str_eq(name, "Java 8 (Minelander)") {
        JavaType::LauncherJava8
    } else if strutil::str_eq(name, "Java 17 (Minelander)") {
        JavaType::LauncherJava17
    } else if strutil::str_eq(name, "Java 21 (Minelander)") {
        JavaType::LauncherJava21
    } else {
        JavaType::Custom
    }
}

} // verus!
