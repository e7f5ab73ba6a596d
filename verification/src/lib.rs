//! Core logic of a game launcher: version-manifest decoding, dependency
//! planning, incremental download bookkeeping, launch-argument synthesis and
//! the pure transition functions of the long-running download/launch state
//! machines. All file, network and process work lives outside this crate and
//! hands plain values in and out.
use vstd::prelude::*;

pub mod auth;
pub mod downloader;
pub mod launcher;
pub mod manifest;
pub mod session;
pub mod strutil;
pub mod theme;
pub mod update_manager;

verus! {

/// The operating systems the launcher supports.
#[derive(Debug, Clone, Copy, PartialEq, Eq, Structural)]
pub enum Os {
    Linux,
    Windows,
}

/// The platform name as the metadata documents spell it.
pub open spec fn os_name_spec(os: Os) -> Seq<char> {
    match os {
        Os::Linux => "linux"@,
        Os::Windows => "windows"@,
    }
}

/// The platform name as the metadata documents spell it.
pub fn os_name(os: Os) -> (r: &'static str)
    ensures
        r@ == os_name_spec(os),
{
    match os {
        Os::Linux => "linux",
        Os::Windows => "windows",
    }
}

/// The classifier that marks a natives bundle for `os`.
pub open spec fn natives_key_spec(os: Os) -> Seq<char> {
    "natives-"@ + os_name_spec(os)
}

/// The classifier that marks a natives bundle for `os`.
pub fn natives_key(os: Os) -> (r: &'static str)
    ensures
        r@ == natives_key_spec(os),
{
    proof {
        reveal_strlit("natives-");
        reveal_strlit("linux");
        reveal_strlit("windows");
        reveal_strlit("natives-linux");
        reveal_strlit("natives-windows");
    }
    match os {
        Os::Linux => {
            proof {
                assert("natives-linux"@ =~= "natives-"@ + "linux"@);
            }
            "natives-linux"
        },
        Os::Windows => {
            proof {
                assert("natives-windows"@ =~= "natives-"@ + "windows"@);
            }
            "natives-windows"
        },
    }
}

/// The classpath separator of `os`.
pub open spec fn separator_spec(os: Os) -> Seq<char> {
    match os {
        Os::Linux => ":"@,
        Os::Windows => ";"@,
    }
}

/// The classpath separator of `os`.
pub fn separator_str(os: Os) -> (r: &'static str)
    ensures
        r@ == separator_spec(os),
{
    match os {
        Os::Linux => ":",
        Os::Windows => ";",
    }
}

/// The space-separated words of a flag string.
pub fn get_vec_from(s: &str) -> (r: Vec<String>)
    ensures
        strutil::str_views(r@) == strutil::split_spec(s@, seq![' ']),
{
    strutil::split_char(s, ' ')
}

/// Where the launcher's settings file lives below the game directory.
pub fn get_config_file_path(minecraft_dir: &str) -> (r: String)
    ensures
        r@ == minecraft_dir@ + "/minelander_settings.json"@,
{
    let mut p = String::from_str(minecraft_dir);
    p.append("/minelander_settings.json");
    p
}

/// The screens the surrounding user interface can show; carried here so the
/// rest of the launcher state can be described with plain data.
#[derive(PartialEq, Debug, Clone, Default)]
pub enum Screen {
    #[default]
    Main,
    Settings,
    Installation,
    Java,
    GameInstance,
    Logs,
    ModifyCommand,
    InfoAndUpdates,
    Accounts,
    MicrosoftAccount,
    LocalAccount,
    GettingStarted,
    GettingStarted2,
}

} // verus!
