//! Launch-argument synthesis and the pre-launch check: classpath assembly,
//! argument templating, runtime selection, identity derivation, and the
//! decisions of the launch state machine. Spawning and supervising the game
//! process is the surrounding program's work.
use crate::downloader::Download;
use crate::manifest::VersionDescriptor;
use crate::strutil;
use crate::Os;
use vstd::prelude::*;
use vstd::string::StringSliceAdditionalSpecFns;

verus! {

/// The states of the launch state machine.
pub enum State {
    Checking(Option<GameSettings>),
    Launching(GameSettings),
    GettingLogs,
    Idle,
}

/// The progress events the launch machine reports. The live process handle
/// accompanying `Started` is held by the driver.
#[derive(Debug, Clone)]
pub enum Progress {
    Checked(Option<Missing>),
    Started,
    GotLog(String),
    Finished,
    Errored(String),
}

/// What the pre-launch check found wanting.
#[derive(Clone, Debug, PartialEq)]
pub enum Missing {
    Java8,
    Java17,
    Java21,
    VersionFiles(Vec<Download>),
    VanillaJson(String, String),
}

/// Which runtime the player asked for.
#[derive(Clone, Debug, PartialEq)]
pub enum JavaType {
    System,
    Custom,
    LauncherJava8,
    LauncherJava17,
    LauncherJava21,
    Automatic,
}

/// One launch request: identity, version, runtime policy and tuning.
#[derive(Debug, PartialEq, Clone)]
pub struct GameSettings {
    pub account: crate::auth::MinecraftAccount,
    pub game_version: String,
    pub jvm: String,
    pub jvmargs: Vec<String>,
    /// Memory ceiling of the game process, in megabytes.
    pub ram_megabytes: u64,
    pub game_directory: String,
    pub java_type: JavaType,
    pub game_wrapper_commands: Vec<String>,
    pub enviroment_variables: Vec<(String, String)>,
}

/// The number a version segment denotes, read exactly as `str::parse::<i32>`
/// reads it; `None` when the segment is absent.
pub open spec fn seg_num_spec(pieces: Seq<Seq<char>>, k: int) -> Option<i32> {
    if 0 <= k < pieces.len() {
        strutil::parse_i32_spec(pieces[k])
    } else {
        Option::None
    }
}

/// One segment-comparison step of the version order: `None` means the
/// segments agree and the next segment decides. When both segments are
/// numbers they are compared as numbers; when either is missing or not a
/// number, a numeric segment wins over a non-numeric present one, and
/// anything else ties.
pub open spec fn seg_cmp_spec(a: Seq<Seq<char>>, b: Seq<Seq<char>>, k: int) -> Option<
    core::cmp::Ordering,
> {
    let na = seg_num_spec(a, k);
    let nb = seg_num_spec(b, k);
    if na is Some && nb is Some {
        if na->0 != nb->0 {
            if na->0 < nb->0 {
                Option::Some(core::cmp::Ordering::Less)
            } else {
                Option::Some(core::cmp::Ordering::Greater)
            }
        } else {
            Option::None
        }
    } else {
        if k < a.len() && k < b.len() && na is Some && nb is None {
            Option::Some(core::cmp::Ordering::Greater)
        } else if k < a.len() && k < b.len() && na is None && nb is Some {
            Option::Some(core::cmp::Ordering::Less)
        } else {
            Option::Some(core::cmp::Ordering::Equal)
        }
    }
}

/// The fourth segment, or nothing.
pub open spec fn seg_or_empty_spec(pieces: Seq<Seq<char>>, k: int) -> Seq<char> {
    if 0 <= k < pieces.len() {
        pieces[k]
    } else {
        Seq::empty()
    }
}

/// The order of two version names: segments split at `.` and `-`, the first
/// three compared as numbers, the fourth lexicographically.
pub open spec fn version_order_spec(a: Seq<char>, b: Seq<char>) -> core::cmp::Ordering {
    let pa = strutil::split_spec(a, seq!['.', '-']);
    let pb = strutil::split_spec(b, seq!['.', '-']);
    match seg_cmp_spec(pa, pb, 0) {
        Option::Some(o) => o,
        Option::None => match seg_cmp_spec(pa, pb, 1) {
            Option::Some(o) => o,
            Option::None => match seg_cmp_spec(pa, pb, 2) {
                Option::Some(o) => o,
                Option::None => strutil::lex_cmp_spec(
                    seg_or_empty_spec(pa, 3),
                    seg_or_empty_spec(pb, 3),
                ),
            },
        },
    }
}

/// A JVM-argument template after the three unconditional substitutions:
/// natives directory, library directory and classpath separator.
pub open spec fn jvm_pre_subst_spec(
    v: Seq<char>,
    nativedir: Seq<char>,
    lib_dir: Seq<char>,
    os: Os,
) -> Seq<char> {
    strutil::replace_all_spec(
        strutil::replace_all_spec(
            strutil::replace_all_spec(v, "${natives_directory}"@, nativedir),
            "${library_directory}"@,
            lib_dir,
        ),
        "${classpath_separator}"@,
        crate::separator_spec(os),
    )
}

/// A JVM-argument template fully substituted, with `id` for the version
/// name.
pub open spec fn jvm_full_subst_spec(
    v: Seq<char>,
    nativedir: Seq<char>,
    lib_dir: Seq<char>,
    os: Os,
    id: Seq<char>,
) -> Seq<char> {
    strutil::replace_all_spec(jvm_pre_subst_spec(v, nativedir, lib_dir, os), "${version_name}"@, id)
}

/// What a JVM-argument template list yields: each template substituted, and
/// any that still asks for the classpath (or spells the classpath switch)
/// dropped — the classpath is appended separately.
pub open spec fn jvm_args_spec(
    args: Seq<Seq<char>>,
    nativedir: Seq<char>,
    lib_dir: Seq<char>,
    os: Os,
    id: Seq<char>,
) -> Seq<Seq<char>>
    decreases args.len(),
{
    if args.len() == 0 {
        Seq::empty()
    } else {
        let rest = jvm_args_spec(args.drop_last(), nativedir, lib_dir, os, id);
        let v = jvm_full_subst_spec(args.last(), nativedir, lib_dir, os, id);
        if !strutil::contains_seq(v, "${classpath}"@) && !strutil::contains_seq(v, "-cp"@) {
            rest.push(v)
        } else {
            rest
        }
    }
}

/// Whether substituting a template list needs the descriptor's version id.
pub open spec fn jvm_needs_id_spec(
    args: Seq<Seq<char>>,
    nativedir: Seq<char>,
    lib_dir: Seq<char>,
    os: Os,
) -> bool {
    exists|i: int|
        0 <= i < args.len() && strutil::contains_seq(
            #[trigger] jvm_pre_subst_spec(args[i], nativedir, lib_dir, os),
            "${version_name}"@,
        )
}

/// The version id a descriptor offers the templates, or nothing.
pub open spec fn id_or_empty_spec(p: VersionDescriptor) -> Seq<char> {
    match p.id {
        Option::Some(s) => s@,
        Option::None => Seq::empty(),
    }
}

/// The JVM arguments a descriptor yields: its modern templates substituted
/// (against the natives directory, `<mc_dir>/libraries`, the platform's
/// separator and the descriptor's id), classpath templates dropped; a
/// descriptor without modern templates yields the single legacy
/// `-Djava.library.path` argument.
pub open spec fn descriptor_jvm_args_spec(
    p: VersionDescriptor,
    nativedir: Seq<char>,
    mc_dir: Seq<char>,
    os: Os,
) -> Seq<Seq<char>> {
    match p.jvm_args {
        Option::None => seq!["-Djava.library.path="@ + nativedir],
        Option::Some(args) => jvm_args_spec(
            strutil::str_views(args@),
            nativedir,
            mc_dir + "/libraries"@,
            os,
            id_or_empty_spec(p),
        ),
    }
}

/// Whether a descriptor's JVM arguments cannot be substituted: a template
/// asks for the version name and the descriptor has no id.
pub open spec fn descriptor_jvm_err_spec(
    p: VersionDescriptor,
    nativedir: Seq<char>,
    mc_dir: Seq<char>,
    os: Os,
) -> bool {
    p.jvm_args is Some && p.id is None && jvm_needs_id_spec(
        strutil::str_views(p.jvm_args->0@),
        nativedir,
        mc_dir + "/libraries"@,
        os,
    )
}

/// The JVM arguments of a descriptor; fails exactly when a template asks
/// for the version name and the descriptor has no id.
pub fn get_game_jvm_args(p: &VersionDescriptor, nativedir: &str, mc_dir: &str, os: Os) -> (r:
    Result<Vec<String>, String>)
    ensures
        r is Ok ==> strutil::str_views(r->Ok_0@) == descriptor_jvm_args_spec(
            *p,
            nativedir@,
            mc_dir@,
            os,
        ),
        r is Err <==> descriptor_jvm_err_spec(*p, nativedir@, mc_dir@, os),
{
    let args = match &p.jvm_args {
        None => {
            let mut out: Vec<String> = Vec::new();
            let mut a = String::from_str("-Djava.library.path=");
            a.append(nativedir);
            out.push(a);
            proof {
                assert(strutil::str_views(out@) =~= seq!["-Djava.library.path="@ + nativedir@]);
            }
            return Ok(out);
        },
        Some(args) => args,
    };
    let mut lib_dir = String::from_str(mc_dir);
    lib_dir.append("/libraries");
    let id_str: &str = match &p.id {
        Some(s) => s.as_str(),
        None => "",
    };
    proof {
        reveal_strlit("");
        reveal_strlit("${natives_directory}");
        reveal_strlit("${library_directory}");
        reveal_strlit("${classpath_separator}");
        reveal_strlit("${version_name}");
        assert(""@ =~= Seq::<char>::empty());
        assert(id_str@ == id_or_empty_spec(*p));
    }
    let n = args.len();
    let mut out: Vec<String> = Vec::new();
    let mut i: usize = 0;
    let ghost args_v = strutil::str_views(args@);
    let ghost id_v = id_or_empty_spec(*p);
    proof {
        assert(args_v.take(0) =~= Seq::<Seq<char>>::empty());
        assert(strutil::str_views(out@) =~= jvm_args_spec(
            args_v.take(0),
            nativedir@,
            lib_dir@,
            os,
            id_v,
        ));
    }
    while i < n
        invariant
            i <= n,
            n == args@.len(),
            args_v == strutil::str_views(args@),
            p.jvm_args is Some,
            strutil::str_views(p.jvm_args->0@) == args_v,
            id_v == id_or_empty_spec(*p),
            "${natives_directory}"@.len() > 0,
            "${library_directory}"@.len() > 0,
            "${classpath_separator}"@.len() > 0,
            "${version_name}"@.len() > 0,
            id_str@ == id_v,
            lib_dir@ == mc_dir@ + "/libraries"@,
            p.id is None ==> id_v == Seq::<char>::empty(),
            p.id is None ==> forall|j: int|
                0 <= j < i ==> !strutil::contains_seq(
                    #[trigger] jvm_pre_subst_spec(args_v[j], nativedir@, lib_dir@, os),
                    "${version_name}"@,
                ),
            strutil::str_views(out@) == jvm_args_spec(
                args_v.take(i as int),
                nativedir@,
                lib_dir@,
                os,
                id_v,
            ),
        decreases n - i,
    {
        proof {
            assert(args_v.take(i + 1).drop_last() =~= args_v.take(i as int));
            assert(args_v.take(i + 1).last() == args@[i as int]@);
        }
        let a = &args[i];
        let v1 = strutil::replace_all(a.as_str(), "${natives_directory}", nativedir);
        let v2 = strutil::replace_all(v1.as_str(), "${library_directory}", lib_dir.as_str());
        let v3 = strutil::replace_all(
            v2.as_str(),
            "${classpath_separator}",
            crate::separator_str(os),
        );
        if strutil::contains_sub(v3.as_str(), "${version_name}") {
            if let None = &p.id {
                proof {
                    assert(strutil::contains_seq(
                        jvm_pre_subst_spec(args_v[i as int], nativedir@, lib_dir@, os),
                        "${version_name}"@,
                    ));
                    assert(jvm_needs_id_spec(args_v, nativedir@, lib_dir@, os));
                }
                return Err(
                    String::from_str("jvm argument asks for a version name the descriptor lacks"),
                );
            }
        }
        let v4 = strutil::replace_all(v3.as_str(), "${version_name}", id_str);
        let ghost out0 = out@;
        if !strutil::contains_sub(v4.as_str(), "${classpath}") && !strutil::contains_sub(
            v4.as_str(),
            "-cp",
        ) {
            out.push(v4);
            proof {
                assert(strutil::str_views(out@) =~= strutil::str_views(out0).push(
                    jvm_full_subst_spec(args_v[i as int], nativedir@, lib_dir@, os, id_v),
                ));
            }
        }
        i = i + 1;
    }
    proof {
        assert(args_v.take(n as int) =~= args_v);
        if p.id is None {
            assert(!jvm_needs_id_spec(args_v, nativedir@, lib_dir@, os));
        }
    }
    Ok(out)
}

/// What one library entry contributes to the classpath: nothing when its
/// rule does not apply or it is the known-broken historical streaming
/// library; otherwise its artifact path followed by the platform separator.
pub open spec fn cp_entry_spec(
    e: crate::manifest::LibraryEntry,
    os: Os,
    lib_dir: Seq<char>,
) -> Seq<char>
    recommends
        !cp_entry_err_spec(e, os),
{
    if !crate::downloader::rule_applies(e.rule_os, os) {
        Seq::empty()
    } else {
        let name = e.name->0@;
        let has = crate::downloader::has_native_key(e.natives_keys@, os);
        let shape = crate::downloader::shape_spec(name, has, os);
        if shape is Old && name == "tv.twitch:twitch-platform:6.5"@ {
            Seq::empty()
        } else {
            lib_dir + crate::downloader::lib_rel_spec(name, has, os) + crate::separator_spec(os)
        }
    }
}

/// Whether the classpath cannot be assembled from this entry.
pub open spec fn cp_entry_err_spec(e: crate::manifest::LibraryEntry, os: Os) -> bool {
    crate::downloader::rule_applies(e.rule_os, os) && crate::downloader::entry_malformed(e, os)
}

/// The classpath contribution of a whole library list, in order.
pub open spec fn classpath_spec(
    entries: Seq<crate::manifest::LibraryEntry>,
    os: Os,
    lib_dir: Seq<char>,
) -> Seq<char>
    decreases entries.len(),
{
    if entries.len() == 0 {
        Seq::empty()
    } else {
        classpath_spec(entries.drop_last(), os, lib_dir) + cp_entry_spec(entries.last(), os, lib_dir)
    }
}

/// The classpath of a descriptor's libraries: each applying entry's artifact
/// path followed by the platform separator, with the known-broken historical
/// streaming library skipped. Fails exactly when an applying entry is
/// malformed.
pub fn lib_manager(p: &VersionDescriptor, mc_dir: &str, os: Os) -> (r: Result<String, String>)
    ensures
        r is Ok ==> r->Ok_0@ == classpath_spec(p.libraries@, os, mc_dir@ + "/libraries/"@),
        r is Err <==> exists|i: int|
            0 <= i < p.libraries@.len() && cp_entry_err_spec(p.libraries@[i], os),
{
    let mut lib_dir = String::from_str(mc_dir);
    lib_dir.append("/libraries/");
    let mut out = String::new();
    let n = p.libraries.len();
    let mut i: usize = 0;
    proof {
        assert(p.libraries@.take(0) =~= Seq::<crate::manifest::LibraryEntry>::empty());
        assert(out@ =~= classpath_spec(p.libraries@.take(0), os, lib_dir@));
    }
    while i < n
        invariant
            i <= n,
            n == p.libraries@.len(),
            lib_dir@ == mc_dir@ + "/libraries/"@,
            out@ == classpath_spec(p.libraries@.take(i as int), os, lib_dir@),
            forall|j: int| 0 <= j < i ==> !cp_entry_err_spec(p.libraries@[j], os),
        decreases n - i,
    {
        proof {
            assert(p.libraries@.take(i + 1).drop_last() =~= p.libraries@.take(i as int));
            assert(p.libraries@.take(i + 1).last() == p.libraries@[i as int]);
        }
        let e = &p.libraries[i];
        let ghost out0 = out@;
        if crate::downloader::rule_matches(&e.rule_os, os) {
            let nm = match &e.name {
                Some(nm) => nm,
                None => {
                    return Err(String::from_str("library entry without a name"));
                },
            };
            let has_nat = crate::downloader::has_native_for(&e.natives_keys, os);
            let is_natives = strutil::contains_sub(nm.as_str(), crate::natives_key(os));
            let is_twitch = strutil::str_eq(nm.as_str(), "tv.twitch:twitch-platform:6.5");
            if !is_natives && has_nat && is_twitch {
                // The coordinate still has to decompose, as anywhere else;
                // only its classpath contribution is dropped.
                if let Err(m) = crate::downloader::lib_rel_path(nm, has_nat, os) {
                    return Err(m);
                }
                proof {
                    assert(out@ =~= out0 + cp_entry_spec(p.libraries@[i as int], os, lib_dir@));
                }
            } else {
                let lib = match crate::downloader::lib_rel_path(nm, has_nat, os) {
                    Ok(l) => l,
                    Err(m) => {
                        return Err(m);
                    },
                };
                out.append(lib_dir.as_str());
                out.append(lib.as_str());
                out.append(crate::separator_str(os));
                proof {
                    assert(out@ =~= out0 + cp_entry_spec(p.libraries@[i as int], os, lib_dir@));
                }
            }
        } else {
            proof {
                assert(out@ =~= out0 + cp_entry_spec(p.libraries@[i as int], os, lib_dir@));
            }
        }
        i = i + 1;
    }
    proof {
        assert(p.libraries@.take(n as int) =~= p.libraries@);
    }
    Ok(out)
}

/// The game arguments a base descriptor contributes to an overlay launch:
/// its modern templates when it has them; else its legacy template, split at
/// blanks, but only when the overlay has no legacy template of its own.
pub open spec fn modded_game_args_spec(
    p: VersionDescriptor,
    vjson: VersionDescriptor,
    data: Seq<Seq<char>>,
    mc_dir: Seq<char>,
) -> Seq<Seq<char>> {
    match vjson.game_args {
        Option::Some(args) => game_args_spec(strutil::str_views(args@), data, mc_dir),
        Option::None => match vjson.minecraft_arguments {
            Option::Some(legacy) => {
                if p.minecraft_arguments is None {
                    game_args_spec(strutil::split_ws_spec(legacy@), data, mc_dir)
                } else {
                    Seq::empty()
                }
            },
            Option::None => Seq::empty(),
        },
    }
}

/// The launch values of an overlay launch: the overlay's values with the
/// asset-index slot replaced by the base's asset-index id.
pub open spec fn modded_data_spec(gamedata: Seq<Seq<char>>, vjson: VersionDescriptor) -> Seq<
    Seq<char>,
> {
    gamedata.update(4, vjson.assets->0@)
}

/// What the base descriptor of an overlay launch supplies: its JVM
/// arguments, its game arguments (against the updated launch values), and
/// its classpath contribution. The asset-index identifier is always the
/// base's. Fails exactly when the base lacks an asset-index id, its JVM
/// templates cannot be substituted, or its library list cannot be walked.
pub fn modded(
    p: &VersionDescriptor,
    vjson: &VersionDescriptor,
    game_version: &str,
    gamedata: Vec<String>,
    mc_dir: &str,
    os: Os,
) -> (r: Result<(Vec<String>, Vec<String>, String), String>)
    requires
        gamedata@.len() >= 11,
    ensures
        ({
            let nativedir = mc_dir@ + "/versions/"@ + game_version@ + "/natives"@;
            &&& (r is Err <==> (vjson.assets is None || descriptor_jvm_err_spec(
                *vjson,
                nativedir,
                mc_dir@,
                os,
            ) || exists|i: int|
                0 <= i < vjson.libraries@.len() && cp_entry_err_spec(vjson.libraries@[i], os)))
            &&& r is Ok ==> {
                let data = modded_data_spec(strutil::str_views(gamedata@), *vjson);
                &&& strutil::str_views(r->Ok_0.0@) == descriptor_jvm_args_spec(
                    *vjson,
                    nativedir,
                    mc_dir@,
                    os,
                )
                &&& strutil::str_views(r->Ok_0.1@) == modded_game_args_spec(
                    *p,
                    *vjson,
                    data,
                    mc_dir@,
                )
                &&& r->Ok_0.2@ == classpath_spec(vjson.libraries@, os, mc_dir@ + "/libraries/"@)
            }
        }),
{
    let new_asset_index = match &vjson.assets {
        Some(a) => a.clone(),
        None => {
            return Err(String::from_str("base descriptor without an asset index id"));
        },
    };
    let mut gamedata = gamedata;
    let ghost data0 = strutil::str_views(gamedata@);
    gamedata.set(4, new_asset_index);
    proof {
        assert(strutil::str_views(gamedata@) =~= modded_data_spec(data0, *vjson));
    }
    let modded_game_args: Vec<String> = match &vjson.game_args {
        Some(args) => {
            let args2 = clone_str_vec(args);
            get_game_args(args2, &gamedata, mc_dir)
        },
        None => match &vjson.minecraft_arguments {
            Some(legacy) => {
                if p.minecraft_arguments.is_none() {
                    let oldargs = strutil::split_whitespace_vec(legacy.as_str());
                    get_game_args(oldargs, &gamedata, mc_dir)
                } else {
                    Vec::new()
                }
            },
            None => Vec::new(),
        },
    };
    let mut nativedir = String::from_str(mc_dir);
    nativedir.append("/versions/");
    nativedir.append(game_version);
    nativedir.append("/natives");
    let vanilla_jvm_args = match get_game_jvm_args(vjson, nativedir.as_str(), mc_dir, os) {
        Ok(a) => a,
        Err(m) => {
            return Err(m);
        },
    };
    let vanilla_cp = match lib_manager(vjson, mc_dir, os) {
        Ok(c) => c,
        Err(m) => {
            return Err(m);
        },
    };
    Ok((vanilla_jvm_args, modded_game_args, vanilla_cp))
}

/// The elements of `v`, as owned strings.
fn clone_str_vec(v: &Vec<String>) -> (r: Vec<String>)
    ensures
        strutil::str_views(r@) == strutil::str_views(v@),
{
    let n = v.len();
    let mut out: Vec<String> = Vec::new();
    let mut i: usize = 0;
    while i < n
        invariant
            i <= n,
            n == v@.len(),
            out@.len() == i,
            forall|j: int| 0 <= j < out@.len() ==> out@[j]@ == v@[j]@,
        decreases n - i,
    {
        out.push(v[i].clone());
        i = i + 1;
    }
    proof {
        assert(strutil::str_views(out@) =~= strutil::str_views(v@));
    }
    out
}

/// A composed process invocation: the program to start and its arguments.
/// The working directory and extra environment come straight from the
/// settings; the driver applies them when spawning.
pub struct LaunchCommand {
    pub program: String,
    pub args: Vec<String>,
}

/// Whether the launch is an overlay (mod-loader) launch: the version name
/// says so, or the descriptor inherits from a base.
pub open spec fn is_modded_spec(p: VersionDescriptor, game_version: Seq<char>) -> bool {
    ||| strutil::contains_seq(strutil::to_lower_spec(game_version), "fabric"@)
    ||| strutil::contains_seq(strutil::to_lower_spec(game_version), "forge"@)
    ||| p.inherits_from is Some
}

/// The working directory of a launch: the game directory itself, or a named
/// instance directory below it.
pub open spec fn game_dir_spec(game_directory: Seq<char>, mc_dir: Seq<char>) -> Seq<char> {
    if game_directory == "Default"@ {
        mc_dir
    } else {
        mc_dir + "/minelander_instances/"@ + game_directory
    }
}

/// The identity a launch runs under: the account's identifier, or, for a
/// local account without one, the identifier derived from the username.
pub open spec fn uuid_of_account_spec(a: crate::auth::MinecraftAccount) -> Seq<char> {
    if a.uuid@.len() == 0 {
        uuid_str_of(md5_digest(vstd::utf8::encode_utf8(a.username@)))
    } else {
        a.uuid@
    }
}

/// The substitution table of a launch, in slot order: player name, version
/// id, working directory, assets root, asset-index id, identity, access
/// token, the fixed legacy fields, and the classpath.
pub open spec fn gamedata_spec(
    settings: GameSettings,
    p: VersionDescriptor,
    mc_dir: Seq<char>,
    cp: Seq<char>,
) -> Seq<Seq<char>> {
    seq![
        settings.account.username@,
        settings.game_version@,
        game_dir_spec(settings.game_directory@, mc_dir),
        mc_dir + "/assets"@,
        match p.assets {
            Option::Some(a) => a@,
            Option::None => Seq::empty(),
        },
        uuid_of_account_spec(settings.account),
        settings.account.token@,
        "{}"@,
        "legacy"@,
        "Release"@,
        "Modified"@,
        cp,
    ]
}

/// The runtime a launch starts: the system runtime, the player's custom
/// runtime, an explicit managed generation, or the automatic choice driven
/// by the (possibly inherited) descriptor's required major version.
pub open spec fn java_choice_spec(
    settings: GameSettings,
    p: VersionDescriptor,
    base: Option<VersionDescriptor>,
    modded: bool,
    mc_dir: Seq<char>,
    os: Os,
) -> (Seq<char>, Seq<Seq<char>>) {
    match settings.java_type {
        JavaType::System => (
            "java"@,
            strutil::split_spec(java_flags_spec(crate::downloader::Java::J17), seq![' ']),
        ),
        JavaType::Custom => (settings.jvm@, strutil::str_views(settings.jvmargs@)),
        JavaType::LauncherJava8 => (
            java_exec_path_spec(mc_dir, crate::downloader::Java::J8, os),
            strutil::split_spec(java_flags_spec(crate::downloader::Java::J8), seq![' ']),
        ),
        JavaType::LauncherJava17 => (
            java_exec_path_spec(mc_dir, crate::downloader::Java::J17, os),
            strutil::split_spec(java_flags_spec(crate::downloader::Java::J17), seq![' ']),
        ),
        JavaType::LauncherJava21 => (
            java_exec_path_spec(mc_dir, crate::downloader::Java::J21, os),
            strutil::split_spec(java_flags_spec(crate::downloader::Java::J21), seq![' ']),
        ),
        JavaType::Automatic => {
            let major = if modded {
                base->0.java_major
            } else {
                p.java_major
            };
            let required: int = match major {
                Option::Some(v) => v as int,
                Option::None => 0,
            };
            let java = auto_java_spec(required);
            (
                java_exec_path_spec(mc_dir, java, os),
                strutil::split_spec(java_flags_spec(java), seq![' ']),
            )
        },
    }
}

/// Whether a launch cannot be composed: a missing main class, a library
/// list that cannot be walked, JVM templates that cannot be substituted, or
/// an overlay launch without a usable base descriptor.
pub open spec fn compose_err_spec(
    p: VersionDescriptor,
    base: Option<VersionDescriptor>,
    settings: GameSettings,
    mc_dir: Seq<char>,
    os: Os,
) -> bool {
    let nativedir = mc_dir + "/versions/"@ + settings.game_version@ + "/natives"@;
    ||| p.main_class is None
    ||| exists|i: int| 0 <= i < p.libraries@.len() && cp_entry_err_spec(p.libraries@[i], os)
    ||| descriptor_jvm_err_spec(p, nativedir, mc_dir, os)
    ||| (is_modded_spec(p, settings.game_version@) && (base is None || base->0.assets is None
        || descriptor_jvm_err_spec(base->0, nativedir, mc_dir, os) || exists|i: int|
        0 <= i < base->0.libraries@.len() && cp_entry_err_spec(base->0.libraries@[i], os)))
}

/// What a successfully composed launch runs: the program (a wrapper command
/// or the runtime itself) and the full argument vector — wrapper tail,
/// runtime path when wrapped, the memory ceiling, the runtime's tuning
/// flags, the JVM arguments (the base's first for an overlay launch), the
/// classpath switch and classpath ending in the version jar, the main
/// class, and the substituted game arguments (the base's first).
pub open spec fn compose_spec(
    p: VersionDescriptor,
    base: Option<VersionDescriptor>,
    settings: GameSettings,
    mc_dir: Seq<char>,
    os: Os,
) -> (Seq<char>, Seq<Seq<char>>) {
    let gv = settings.game_version@;
    let modded = is_modded_spec(p, gv);
    let nativedir = mc_dir + "/versions/"@ + gv + "/natives"@;
    let lib_dir = mc_dir + "/libraries/"@;
    let cp0 = classpath_spec(p.libraries@, os, lib_dir);
    let data0 = gamedata_spec(settings, p, mc_dir, cp0);
    let data = if modded {
        modded_data_spec(data0, base->0)
    } else {
        data0
    };
    let own_jvm = descriptor_jvm_args_spec(p, nativedir, mc_dir, os);
    let jvm = if modded {
        descriptor_jvm_args_spec(base->0, nativedir, mc_dir, os) + own_jvm
    } else {
        own_jvm
    };
    let base_game = if modded {
        modded_game_args_spec(p, base->0, data, mc_dir)
    } else {
        Seq::empty()
    };
    let own_game = match p.game_args {
        Option::Some(a) => game_args_spec(strutil::str_views(a@), data, mc_dir),
        Option::None => match p.minecraft_arguments {
            Option::Some(l) => game_args_spec(strutil::split_ws_spec(l@), data, mc_dir),
            Option::None => Seq::empty(),
        },
    };
    let cp1 = if modded {
        cp0 + classpath_spec(base->0.libraries@, os, lib_dir)
    } else {
        cp0
    };
    let cp_full = cp1 + mc_dir + "/versions/"@ + gv + "/"@ + gv + ".jar"@;
    let choice = java_choice_spec(settings, p, base, modded, mc_dir, os);
    let wrapped = settings.game_wrapper_commands@.len() > 0;
    let program = if wrapped {
        settings.game_wrapper_commands@[0]@
    } else {
        choice.0
    };
    let head = if wrapped {
        strutil::str_views(settings.game_wrapper_commands@).skip(1) + seq![choice.0]
    } else {
        Seq::<Seq<char>>::empty()
    };
    let xmx = "-Xmx"@ + strutil::dec_spec(settings.ram_megabytes as int) + "M"@;
    let args = head + seq![xmx] + choice.1 + jvm + seq!["-cp"@, cp_full, p.main_class->0@]
        + base_game + own_game;
    (program, args)
}

/// The substitution table of a launch, as owned strings.
fn build_gamedata(
    settings: &GameSettings,
    p: &VersionDescriptor,
    library_list: &String,
    mc_dir: &str,
) -> (r: Vec<String>)
    ensures
        strutil::str_views(r@) == gamedata_spec(*settings, *p, mc_dir@, library_list@),
        r@.len() == 12,
{
    let game_dir: String = if strutil::str_eq(settings.game_directory.as_str(), "Default") {
        String::from_str(mc_dir)
    } else {
        let mut d = String::from_str(mc_dir);
        d.append("/minelander_instances/");
        d.append(settings.game_directory.as_str());
        d
    };
    let uuid: String = if settings.account.uuid.as_str().unicode_len() == 0 {
        generate_uuid(settings.account.username.as_str())
    } else {
        settings.account.uuid.clone()
    };
    let mut assets_dir = String::from_str(mc_dir);
    assets_dir.append("/assets");
    let asset_index: String = match &p.assets {
        Some(a) => a.clone(),
        None => String::new(),
    };
    let mut gamedata: Vec<String> = Vec::new();
    gamedata.push(settings.account.username.clone());
    gamedata.push(settings.game_version.clone());
    gamedata.push(game_dir);
    gamedata.push(assets_dir);
    gamedata.push(asset_index);
    gamedata.push(uuid);
    gamedata.push(settings.account.token.clone());
    gamedata.push(String::from_str("{}"));
    gamedata.push(String::from_str("legacy"));
    gamedata.push(String::from_str("Release"));
    gamedata.push(String::from_str("Modified"));
    gamedata.push(library_list.clone());
    proof {
        assert(strutil::str_views(gamedata@) =~= gamedata_spec(
            *settings,
            *p,
            mc_dir@,
            library_list@,
        ));
    }
    gamedata
}

/// The runtime of a launch, as owned values.
fn choose_java(
    settings: &GameSettings,
    p: &VersionDescriptor,
    base: Option<&VersionDescriptor>,
    is_modded: bool,
    mc_dir: &str,
    os: Os,
) -> (r: (String, Vec<String>))
    requires
        is_modded ==> base is Some,
    ensures
        ({
            let base_v = match base {
                Option::Some(b) => Option::Some(*b),
                Option::None => Option::None,
            };
            let c = java_choice_spec(*settings, *p, base_v, is_modded, mc_dir@, os);
            r.0@ == c.0 && strutil::str_views(r.1@) == c.1
        }),
{
    match &settings.java_type {
        JavaType::System => (
            String::from_str("java"),
            crate::get_vec_from(java_flags(&crate::downloader::Java::J17)),
        ),
        JavaType::Custom => (settings.jvm.clone(), clone_str_vec(&settings.jvmargs)),
        JavaType::LauncherJava8 => {
            let j = crate::downloader::Java::J8;
            (java_exec_path(mc_dir, &j, os), crate::get_vec_from(java_flags(&j)))
        },
        JavaType::LauncherJava17 => {
            let j = crate::downloader::Java::J17;
            (java_exec_path(mc_dir, &j, os), crate::get_vec_from(java_flags(&j)))
        },
        JavaType::LauncherJava21 => {
            let j = crate::downloader::Java::J21;
            (java_exec_path(mc_dir, &j, os), crate::get_vec_from(java_flags(&j)))
        },
        JavaType::Automatic => {
            let major: Option<i64> = if is_modded {
                match base {
                    Some(b) => b.java_major,
                    None => None,
                }
            } else {
                p.java_major
            };
            automatic_java(major, mc_dir, os)
        },
    }
}

/// Glues one launch invocation together: the wrapper tail and runtime when
/// wrapped, the memory ceiling, the runtime flags, the JVM arguments, the
/// classpath switch, the main class and the game arguments, in that order.
fn assemble_args(
    wrapper: Vec<String>,
    java_path: String,
    java_args: Vec<String>,
    jvm_args: Vec<String>,
    cp_full: String,
    main_class: String,
    game_args: Vec<String>,
    ram_megabytes: u64,
) -> (r: (String, Vec<String>))
    ensures
        ({
            let wrapped = wrapper@.len() > 0;
            let head = if wrapped {
                strutil::str_views(wrapper@).skip(1) + seq![java_path@]
            } else {
                Seq::<Seq<char>>::empty()
            };
            let xmx = "-Xmx"@ + strutil::dec_spec(ram_megabytes as int) + "M"@;
            &&& r.0@ == if wrapped {
                wrapper@[0]@
            } else {
                java_path@
            }
            &&& strutil::str_views(r.1@) == head + seq![xmx] + strutil::str_views(java_args@)
                + strutil::str_views(jvm_args@) + seq!["-cp"@, cp_full@, main_class@]
                + strutil::str_views(game_args@)
        }),
{
    let ghost wrapper0 = wrapper@;
    let ghost jp_v = java_path@;
    let ghost java_args_v = strutil::str_views(java_args@);
    let ghost jvm_args_v = strutil::str_views(jvm_args@);
    let ghost game_args_v = strutil::str_views(game_args@);
    let mut args: Vec<String> = Vec::new();
    let program: String;
    let wrapped = wrapper.len() > 0;
    if wrapped {
        let mut w = wrapper;
        let first = w.remove(0);
        proof {
            assert(strutil::str_views(w@) =~= strutil::str_views(wrapper0).skip(1));
            assert(strutil::str_views(wrapper0)[0] == wrapper0[0]@);
        }
        program = first;
        args.append(&mut w);
        args.push(java_path);
    } else {
        program = java_path;
    }
    proof {
        if wrapped {
            assert(strutil::str_views(args@) =~= strutil::str_views(wrapper0).skip(1) + seq![
                jp_v,
            ]);
        } else {
            assert(strutil::str_views(args@) =~= Seq::<Seq<char>>::empty());
        }
    }
    let ghost head_actual = strutil::str_views(args@);
    let mut xmx = String::from_str("-Xmx");
    xmx.append(strutil::u64_to_dec(ram_megabytes).as_str());
    xmx.append("M");
    let ghost xmx_v = xmx@;
    args.push(xmx);
    proof {
        assert(strutil::str_views(args@) =~= head_actual + seq![xmx_v]);
    }
    let ghost s1 = strutil::str_views(args@);
    let mut java_args = java_args;
    args.append(&mut java_args);
    proof {
        assert(strutil::str_views(args@) =~= s1 + java_args_v);
    }
    let ghost s2 = strutil::str_views(args@);
    let mut jvm_args = jvm_args;
    args.append(&mut jvm_args);
    proof {
        assert(strutil::str_views(args@) =~= s2 + jvm_args_v);
    }
    let ghost s3 = strutil::str_views(args@);
    args.push(String::from_str("-cp"));
    let ghost cp_v = cp_full@;
    args.push(cp_full);
    let ghost mc_v = main_class@;
    args.push(main_class);
    proof {
        assert(strutil::str_views(args@) =~= s3 + seq!["-cp"@, cp_v, mc_v]);
    }
    let ghost s4 = strutil::str_views(args@);
    let mut game_args = game_args;
    args.append(&mut game_args);
    proof {
        assert(strutil::str_views(args@) =~= s4 + game_args_v);
        assert(head_actual =~= (if wrapped {
            strutil::str_views(wrapper0).skip(1) + seq![jp_v]
        } else {
            Seq::<Seq<char>>::empty()
        }));
        assert(strutil::str_views(args@) =~= head_actual + seq![xmx_v] + java_args_v + jvm_args_v
            + seq!["-cp"@, cp_v, mc_v] + game_args_v);
    }
    (program, args)
}

/// Composes the process invocation of one launch: runtime, memory ceiling,
/// JVM arguments, classpath, main class and game arguments, wrapped in the
/// player's wrapper command when one is set. For an overlay launch the base
/// descriptor supplies what the overlay omits, and the asset-index id is
/// always the base's.
#[verifier::rlimit(100)]
pub fn compose(
    p: &VersionDescriptor,
    base: Option<&VersionDescriptor>,
    settings: &GameSettings,
    mc_dir: &str,
    os: Os,
) -> (r: Result<LaunchCommand, String>)
    ensures
        ({
            let base_v = match base {
                Option::Some(b) => Option::Some(*b),
                Option::None => Option::None,
            };
            &&& (r is Err <==> compose_err_spec(*p, base_v, *settings, mc_dir@, os))
            &&& r is Ok ==> {
                let c = compose_spec(*p, base_v, *settings, mc_dir@, os);
                r->Ok_0.program@ == c.0 && strutil::str_views(r->Ok_0.args@) == c.1
            }
        }),
{
    let ghost base_v = match base {
        Option::Some(b) => Option::Some(*b),
        Option::None => Option::None,
    };
    let gv = settings.game_version.as_str();
    let main_class = match &p.main_class {
        Some(m) => m.clone(),
        None => {
            return Err(String::from_str("descriptor without a main class"));
        },
    };
    let mut nativedir = String::from_str(mc_dir);
    nativedir.append("/versions/");
    nativedir.append(gv);
    nativedir.append("/natives");
    let mut library_list = match lib_manager(p, mc_dir, os) {
        Ok(c) => c,
        Err(m) => {
            return Err(m);
        },
    };
    let mut version_jvm_args = match get_game_jvm_args(p, nativedir.as_str(), mc_dir, os) {
        Ok(a) => a,
        Err(m) => {
            return Err(m);
        },
    };
    let is_modded = strutil::contains_lower(gv, "fabric") || strutil::contains_lower(gv, "forge")
        || p.inherits_from.is_some();
    proof {
        assert(is_modded == is_modded_spec(*p, settings.game_version@));
    }
    let mut gamedata: Vec<String> = build_gamedata(settings, p, &library_list, mc_dir);
    let ghost cp0 = classpath_spec(p.libraries@, os, mc_dir@ + "/libraries/"@);
    let mut base_jvm_args: Vec<String> = Vec::new();
    let mut base_game_args: Vec<String> = Vec::new();
    if is_modded {
        let vjson = match base {
            Some(b) => b,
            None => {
                return Err(String::from_str("overlay launch without a base descriptor"));
            },
        };
        let new_asset_index = match &vjson.assets {
            Some(a) => a.clone(),
            None => {
                return Err(String::from_str("base descriptor without an asset index id"));
            },
        };
        gamedata.set(4, new_asset_index);
        proof {
            assert(strutil::str_views(gamedata@) =~= modded_data_spec(
                gamedata_spec(*settings, *p, mc_dir@, cp0),
                base_v->0,
            ));
        }
        let parts = match modded(p, vjson, gv, clone_str_vec(&gamedata), mc_dir, os) {
            Ok(t) => t,
            Err(m) => {
                return Err(m);
            },
        };
        base_jvm_args = parts.0;
        base_game_args = parts.1;
        library_list.append(parts.2.as_str());
        proof {
            // Replacing the asset-index slot a second time changes nothing:
            // the slot already holds the base's id.
            assert(modded_data_spec(strutil::str_views(gamedata@), base_v->0)
                =~= strutil::str_views(gamedata@));
        }
    }
    let choice: (String, Vec<String>) = choose_java(settings, p, base, is_modded, mc_dir, os);
    proof {
        if is_modded {
            assert(library_list@ =~= cp0 + classpath_spec(
                base_v->0.libraries@,
                os,
                mc_dir@ + "/libraries/"@,
            ));
        }
    }
    library_list.append(mc_dir);
    library_list.append("/versions/");
    library_list.append(gv);
    library_list.append("/");
    library_list.append(gv);
    library_list.append(".jar");
    proof {
        let cp1 = if is_modded {
            cp0 + classpath_spec(base_v->0.libraries@, os, mc_dir@ + "/libraries/"@)
        } else {
            cp0
        };
        assert(library_list@ =~= cp1 + mc_dir@ + "/versions/"@ + settings.game_version@ + "/"@
            + settings.game_version@ + ".jar"@);
    }
    let own_game_args: Vec<String> = match &p.game_args {
        Some(a) => get_game_args(clone_str_vec(a), &gamedata, mc_dir),
        None => match &p.minecraft_arguments {
            Some(l) => get_game_args(strutil::split_whitespace_vec(l.as_str()), &gamedata, mc_dir),
            None => Vec::new(),
        },
    };
    let ghost base_jvm_v = strutil::str_views(base_jvm_args@);
    let ghost own_jvm_v = strutil::str_views(version_jvm_args@);
    let mut jvm_combined: Vec<String> = Vec::new();
    let mut base_jvm_args = base_jvm_args;
    let mut version_jvm_args = version_jvm_args;
    if is_modded {
        jvm_combined.append(&mut base_jvm_args);
    }
    jvm_combined.append(&mut version_jvm_args);
    proof {
        if is_modded {
            assert(strutil::str_views(jvm_combined@) =~= base_jvm_v + own_jvm_v);
        } else {
            assert(strutil::str_views(jvm_combined@) =~= own_jvm_v);
        }
    }
    let ghost base_game_v = strutil::str_views(base_game_args@);
    let ghost own_game_v = strutil::str_views(own_game_args@);
    let mut game_combined: Vec<String> = base_game_args;
    let mut own_game_args = own_game_args;
    game_combined.append(&mut own_game_args);
    proof {
        assert(strutil::str_views(game_combined@) =~= base_game_v + own_game_v);
    }
    let wrapper = clone_str_vec(&settings.game_wrapper_commands);
    let ghost wrapper0 = wrapper@;
    let ghost java_args_v = strutil::str_views(choice.1@);
    let ghost java_path_v = choice.0@;
    let ghost jvm_v = strutil::str_views(jvm_combined@);
    let ghost game_v = strutil::str_views(game_combined@);
    let ghost cp_full_v = library_list@;
    let ghost main_class_v = main_class@;
    let out = assemble_args(
        wrapper,
        choice.0,
        choice.1,
        jvm_combined,
        library_list,
        main_class,
        game_combined,
        settings.ram_megabytes,
    );
    proof {
        let c = compose_spec(*p, base_v, *settings, mc_dir@, os);
        let choice_spec = java_choice_spec(*settings, *p, base_v, is_modded, mc_dir@, os);
        let wrapped = settings.game_wrapper_commands@.len() > 0;
        assert(wrapper0.len() == settings.game_wrapper_commands@.len());
        if wrapped {
            assert(strutil::str_views(wrapper0)[0] == wrapper0[0]@);
            assert(strutil::str_views(settings.game_wrapper_commands@)[0]
                == settings.game_wrapper_commands@[0]@);
            assert(wrapper0[0]@ == settings.game_wrapper_commands@[0]@);
            assert(strutil::str_views(wrapper0).skip(1) =~= strutil::str_views(
                settings.game_wrapper_commands@,
            ).skip(1));
        }
        assert(java_path_v == choice_spec.0);
        assert(java_args_v =~= choice_spec.1);
        assert(out.0@ == c.0);
        assert(strutil::str_views(out.1@) =~= c.1);
    }
    Ok(LaunchCommand { program: out.0, args: out.1 })
}

/// What the pre-launch check decided: something is missing and the machine
/// suspends, or everything is in place and the launch proceeds.
pub fn check_outcome(settings: GameSettings, missing: Option<Missing>) -> (r: (Progress, State))
    ensures
        match missing {
            Option::Some(m) => r.0 == Progress::Checked(Option::Some(m)) && r.1 is Idle,
            Option::None => r.0 == Progress::Checked(Option::<Missing>::None) && r.1 is Launching
                && r.1->Launching_0 == settings,
        },
{
    match missing {
        Some(m) => (Progress::Checked(Some(m)), State::Idle),
        None => (Progress::Checked(None), State::Launching(settings)),
    }
}

/// The game process is up: hand its logs on.
pub fn launch_started() -> (r: (Progress, State))
    ensures
        r.0 is Started,
        r.1 is GettingLogs,
{
    (Progress::Started, State::GettingLogs)
}

/// The launch failed: report it and suspend.
pub fn launch_failed(msg: String) -> (r: (Progress, State))
    ensures
        r.0 == Progress::Errored(msg),
        r.1 is Idle,
{
    (Progress::Errored(msg), State::Idle)
}

/// One log line arrived: pass it on and keep listening.
pub fn log_line(line: String) -> (r: (Progress, State))
    ensures
        r.0 == Progress::GotLog(line),
        r.1 is GettingLogs,
{
    (Progress::GotLog(line), State::GettingLogs)
}

/// The log channel closed after the process exited: the launch is over.
pub fn logs_closed() -> (r: (Progress, State))
    ensures
        r.0 is Finished,
        r.1 is Idle,
{
    (Progress::Finished, State::Idle)
}

/// The character of the hexadecimal digit `d`, lower case.
pub open spec fn hex_digit_char(d: int) -> char
    recommends
        0 <= d < 16,
{
    if d < 10 {
        strutil::digit_char(d)
    } else if d == 10 {
        'a'
    } else if d == 11 {
        'b'
    } else if d == 12 {
        'c'
    } else if d == 13 {
        'd'
    } else if d == 14 {
        'e'
    } else {
        'f'
    }
}

/// A byte as two lower-case hexadecimal characters.
pub open spec fn hex_byte_spec(b: u8) -> Seq<char> {
    seq![hex_digit_char(b as int / 16), hex_digit_char(b as int % 16)]
}

/// A byte string as lower-case hexadecimal characters.
pub open spec fn hex_of_bytes_spec(s: Seq<u8>) -> Seq<char>
    decreases s.len(),
{
    if s.len() == 0 {
        Seq::empty()
    } else {
        hex_of_bytes_spec(s.drop_last()) + hex_byte_spec(s.last())
    }
}

/// Sixteen bytes in the hyphenated identity format: lower-case hex in groups
/// of 8, 4, 4, 4 and 12 characters.
pub open spec fn uuid_str_of(b: Seq<u8>) -> Seq<char>
    recommends
        b.len() == 16,
{
    hex_of_bytes_spec(b.subrange(0, 4)) + "-"@ + hex_of_bytes_spec(b.subrange(4, 6)) + "-"@
        + hex_of_bytes_spec(b.subrange(6, 8)) + "-"@ + hex_of_bytes_spec(b.subrange(8, 10)) + "-"@
        + hex_of_bytes_spec(b.subrange(10, 16))
}

/// The digest that the MD5 hash assigns to a byte string; a function of the
/// bytes alone.
pub uninterp spec fn md5_digest(data: Seq<u8>) -> Seq<u8>;

/// Relies on md5::compute: the MD5 digest of the input bytes, which depends
/// on the bytes alone and is sixteen bytes long.
#[verifier::external_body]
fn md5_of_str(s: &str) -> (r: Vec<u8>)
    ensures
        r@ == md5_digest(s.spec_bytes()),
        r@.len() == 16,
{
    md5::compute(s.as_bytes()).0.to_vec()
}

/// Relies on uuid::Uuid::from_slice (which keeps the sixteen bytes as they
/// are) and its display form (lower-case hyphenated hexadecimal).
#[verifier::external_body]
fn uuid_hyphenated(b: &Vec<u8>) -> (r: String)
    requires
        b@.len() == 16,
    ensures
        r@ == uuid_str_of(b@),
{
    uuid::Uuid::from_slice(b.as_slice()).unwrap().to_string()
}

/// The identity a local account gets: its username's MD5 digest in the
/// hyphenated identity format.
pub fn generate_uuid(username: &str) -> (r: String)
    ensures
        r@ == uuid_str_of(md5_digest(username.spec_bytes())),
{
    let h = md5_of_str(username);
    uuid_hyphenated(&h)
}

/// The runtime the automatic policy picks for a required major version:
/// above 17 the newest, above 8 (or unspecified) the middle one, otherwise
/// the oldest.
pub open spec fn auto_java_spec(required: int) -> crate::downloader::Java {
    if required > 17 {
        crate::downloader::Java::J21
    } else if required > 8 || required == 0 {
        crate::downloader::Java::J17
    } else {
        crate::downloader::Java::J8
    }
}

/// The path of a managed runtime's executable.
pub open spec fn java_exec_path_spec(mc_dir: Seq<char>, java: crate::downloader::Java, os: Os) -> Seq<
    char,
> {
    mc_dir + "/minelander_java/"@ + crate::downloader::java_folder_spec(java) + match os {
        Os::Linux => "/bin/java"@,
        Os::Windows => "/bin/javaw.exe"@,
    }
}

/// The path of a managed runtime's executable.
pub fn java_exec_path(mc_dir: &str, java: &crate::downloader::Java, os: Os) -> (r: String)
    ensures
        r@ == java_exec_path_spec(mc_dir@, *java, os),
{
    let mut p = String::from_str(mc_dir);
    p.append("/minelander_java/");
    p.append(crate::downloader::java_folder_name(java));
    match os {
        Os::Linux => p.append("/bin/java"),
        Os::Windows => p.append("/bin/javaw.exe"),
    }
    p
}

fn seg_parse(pieces: &Vec<String>, k: usize) -> (r: Option<i32>)
    ensures
        r == seg_num_spec(strutil::str_views(pieces@), k as int),
{
    if k < pieces.len() {
        strutil::parse_i32(pieces[k].as_str())
    } else {
        None
    }
}

fn seg_cmp(a: &Vec<String>, b: &Vec<String>, k: usize) -> (r: Option<core::cmp::Ordering>)
    ensures
        r == seg_cmp_spec(strutil::str_views(a@), strutil::str_views(b@), k as int),
{
    let na = seg_parse(a, k);
    let nb = seg_parse(b, k);
    match (na, nb) {
        (Some(x), Some(y)) => {
            if x != y {
                if x < y {
                    Some(core::cmp::Ordering::Less)
                } else {
                    Some(core::cmp::Ordering::Greater)
                }
            } else {
                None
            }
        },
        _ => {
            if k < a.len() && k < b.len() && na.is_some() && nb.is_none() {
                Some(core::cmp::Ordering::Greater)
            } else if k < a.len() && k < b.len() && na.is_none() && nb.is_some() {
                Some(core::cmp::Ordering::Less)
            } else {
                Some(core::cmp::Ordering::Equal)
            }
        },
    }
}

/// What one game-argument template yields: a recognized placeholder is
/// replaced by the launch value of its substitution table slot, the demo
/// switch is dropped, and anything else passes through unchanged.
pub open spec fn game_arg_subst_spec(
    arg: Seq<char>,
    gamedata: Seq<Seq<char>>,
    mc_dir: Seq<char>,
) -> Seq<Seq<char>>
    recommends
        gamedata.len() >= 11,
{
    if arg == "${auth_player_name}"@ {
        seq![gamedata[0]]
    } else if arg == "${version_name}"@ {
        seq![gamedata[1]]
    } else if arg == "${game_directory}"@ {
        seq![gamedata[2]]
    } else if arg == "${assets_root}"@ {
        seq![gamedata[3]]
    } else if arg == "${assets_index_name}"@ {
        seq![gamedata[4]]
    } else if arg == "${auth_uuid}"@ || arg == "${auth_session}"@ || arg == "${clientid}"@ || arg
        == "${auth_xuid}"@ {
        seq![gamedata[5]]
    } else if arg == "${auth_access_token}"@ {
        seq![gamedata[6]]
    } else if arg == "${user_properties}"@ {
        seq![gamedata[7]]
    } else if arg == "${user_type}"@ {
        seq![gamedata[8]]
    } else if arg == "${version_type}"@ {
        seq![gamedata[9]]
    } else if arg == "${classpath}"@ {
        seq![gamedata[10]]
    } else if arg == "${game_assets}"@ {
        seq![mc_dir + "/resources"@]
    } else if arg == "--demo"@ {
        Seq::empty()
    } else {
        seq![arg]
    }
}

/// What a whole game-argument template list yields, in order.
pub open spec fn game_args_spec(
    args: Seq<Seq<char>>,
    gamedata: Seq<Seq<char>>,
    mc_dir: Seq<char>,
) -> Seq<Seq<char>>
    decreases args.len(),
{
    if args.len() == 0 {
        Seq::empty()
    } else {
        game_args_spec(args.drop_last(), gamedata, mc_dir) + game_arg_subst_spec(
            args.last(),
            gamedata,
            mc_dir,
        )
    }
}

/// The placeholders the game-argument table recognizes, and the demo switch
/// it drops.
pub open spec fn is_recognized_token(s: Seq<char>) -> bool {
    ||| s == "${auth_player_name}"@
    ||| s == "${version_name}"@
    ||| s == "${game_directory}"@
    ||| s == "${assets_root}"@
    ||| s == "${assets_index_name}"@
    ||| s == "${auth_uuid}"@
    ||| s == "${auth_session}"@
    ||| s == "${clientid}"@
    ||| s == "${auth_xuid}"@
    ||| s == "${auth_access_token}"@
    ||| s == "${user_properties}"@
    ||| s == "${user_type}"@
    ||| s == "${version_type}"@
    ||| s == "${classpath}"@
    ||| s == "${game_assets}"@
    ||| s == "--demo"@
}

/// Argument templating is total: as long as no launch value is itself a
/// recognized placeholder, no recognized placeholder survives into the
/// substituted argument list.
pub proof fn lemma_game_args_total(
    args: Seq<Seq<char>>,
    gamedata: Seq<Seq<char>>,
    mc_dir: Seq<char>,
)
    requires
        gamedata.len() >= 11,
        forall|i: int| 0 <= i < gamedata.len() ==> !is_recognized_token(#[trigger] gamedata[i]),
        !is_recognized_token(mc_dir + "/resources"@),
    ensures
        forall|j: int|
            0 <= j < game_args_spec(args, gamedata, mc_dir).len() ==> !is_recognized_token(
                #[trigger] game_args_spec(args, gamedata, mc_dir)[j],
            ),
    decreases args.len(),
{
    if args.len() > 0 {
        lemma_game_args_total(args.drop_last(), gamedata, mc_dir);
        let pre = game_args_spec(args.drop_last(), gamedata, mc_dir);
        let tail = game_arg_subst_spec(args.last(), gamedata, mc_dir);
        assert forall|j: int|
            0 <= j < game_args_spec(args, gamedata, mc_dir).len() implies !is_recognized_token(
            game_args_spec(args, gamedata, mc_dir)[j],
        ) by {
            if j < pre.len() {
                assert(game_args_spec(args, gamedata, mc_dir)[j] == pre[j]);
            } else {
                assert(game_args_spec(args, gamedata, mc_dir)[j] == tail[j - pre.len()]);
            }
        }
    }
}

/// The game arguments of a launch: every template of `arguments` passed
/// through the substitution table, against the launch values of `gamedata`
/// (player name, version id, working directory, assets root, asset-index
/// id, identity, access token, and the fixed legacy fields, with the
/// classpath last).
pub fn get_game_args(arguments: Vec<String>, gamedata: &Vec<String>, mc_dir: &str) -> (r: Vec<
    String,
>)
    requires
        gamedata@.len() >= 11,
    ensures
        strutil::str_views(r@) == game_args_spec(
            strutil::str_views(arguments@),
            strutil::str_views(gamedata@),
            mc_dir@,
        ),
{
    let n = arguments.len();
    let mut out: Vec<String> = Vec::new();
    let mut i: usize = 0;
    let ghost args_v = strutil::str_views(arguments@);
    let ghost data_v = strutil::str_views(gamedata@);
    proof {
        assert(args_v.take(0) =~= Seq::<Seq<char>>::empty());
        assert(strutil::str_views(out@) =~= game_args_spec(args_v.take(0), data_v, mc_dir@));
    }
    while i < n
        invariant
            i <= n,
            n == arguments@.len(),
            gamedata@.len() >= 11,
            args_v == strutil::str_views(arguments@),
            data_v == strutil::str_views(gamedata@),
            strutil::str_views(out@) == game_args_spec(args_v.take(i as int), data_v, mc_dir@),
        decreases n - i,
    {
        proof {
            assert(args_v.take(i + 1).drop_last() =~= args_v.take(i as int));
            assert(args_v.take(i + 1).last() == arguments@[i as int]@);
        }
        let a = &arguments[i];
        let ghost out0 = out@;
        let ghost sub = game_arg_subst_spec(arguments@[i as int]@, data_v, mc_dir@);
        if strutil::str_eq(a.as_str(), "${auth_player_name}") {
            out.push(gamedata[0].clone());
        } else if strutil::str_eq(a.as_str(), "${version_name}") {
            out.push(gamedata[1].clone());
        } else if strutil::str_eq(a.as_str(), "${game_directory}") {
            out.push(gamedata[2].clone());
        } else if strutil::str_eq(a.as_str(), "${assets_root}") {
            out.push(gamedata[3].clone());
        } else if strutil::str_eq(a.as_str(), "${assets_index_name}") {
            out.push(gamedata[4].clone());
        } else if strutil::str_eq(a.as_str(), "${auth_uuid}") || strutil::str_eq(
            a.as_str(),
            "${auth_session}",
        ) || strutil::str_eq(a.as_str(), "${clientid}") || strutil::str_eq(
            a.as_str(),
            "${auth_xuid}",
        ) {
            out.push(gamedata[5].clone());
        } else if strutil::str_eq(a.as_str(), "${auth_access_token}") {
            out.push(gamedata[6].clone());
        } else if strutil::str_eq(a.as_str(), "${user_properties}") {
            out.push(gamedata[7].clone());
        } else if strutil::str_eq(a.as_str(), "${user_type}") {
            out.push(gamedata[8].clone());
        } else if strutil::str_eq(a.as_str(), "${version_type}") {
            out.push(gamedata[9].clone());
        } else if strutil::str_eq(a.as_str(), "${classpath}") {
            out.push(gamedata[10].clone());
        } else if strutil::str_eq(a.as_str(), "${game_assets}") {
            let mut res = String::from_str(mc_dir);
            res.append("/resources");
            out.push(res);
        } else if strutil::str_eq(a.as_str(), "--demo") {
        } else {
            out.push(a.clone());
        }
        proof {
            assert(strutil::str_views(out@) =~= strutil::str_views(out0) + sub);
        }
        i = i + 1;
    }
    proof {
        assert(args_v.take(n as int) =~= args_v);
    }
    out
}

/// The tuning flags each managed runtime generation is started with; the
/// middle and newest generations share one set.
pub open spec fn java_flags_spec(java: crate::downloader::Java) -> Seq<char> {
    match java {
        crate::downloader::Java::J8 => "-XX:+UnlockExperimentalVMOptions -XX:+UnlockDiagnosticVMOptions -XX:+AlwaysActAsServerClassMachine -XX:+ParallelRefProcEnabled -XX:+DisableExplicitGC -XX:+AlwaysPreTouch -XX:+AggressiveOpts -XX:MaxInlineLevel=15 -XX:MaxVectorSize=32 -XX:ThreadPriorityPolicy=1 -XX:+UseNUMA -XX:+UseDynamicNumberOfGCThreads -XX:NmethodSweepActivity=1 -XX:ReservedCodeCacheSize=350M -XX:-DontCompileHugeMethods -XX:MaxNodeLimit=240000 -XX:NodeLimitFudgeFactor=8000 -Dgraal.CompilerConfiguration=community"@,
        _ => "-XX:+UnlockExperimentalVMOptions -XX:+UnlockDiagnosticVMOptions -XX:+AlwaysActAsServerClassMachine -XX:+AlwaysPreTouch -XX:+DisableExplicitGC -XX:+UseNUMA -XX:NmethodSweepActivity=1 -XX:ReservedCodeCacheSize=400M -XX:NonNMethodCodeHeapSize=12M -XX:ProfiledCodeHeapSize=194M -XX:NonProfiledCodeHeapSize=194M -XX:-DontCompileHugeMethods -XX:MaxNodeLimit=240000 -XX:NodeLimitFudgeFactor=8000 -XX:+UseVectorCmov -XX:+PerfDisableSharedMem -XX:+UseFastUnorderedTimeStamps -XX:+UseCriticalJavaThreadPriority -XX:ThreadPriorityPolicy=1 -XX:AllocatePrefetchStyle=3"@,
    }
}

/// The tuning flags of one managed runtime generation.
pub fn java_flags(java: &crate::downloader::Java) -> (r: &'static str)
    ensures
        r@ == java_flags_spec(*java),
{
    match java {
        crate::downloader::Java::J8 => "-XX:+UnlockExperimentalVMOptions -XX:+UnlockDiagnosticVMOptions -XX:+AlwaysActAsServerClassMachine -XX:+ParallelRefProcEnabled -XX:+DisableExplicitGC -XX:+AlwaysPreTouch -XX:+AggressiveOpts -XX:MaxInlineLevel=15 -XX:MaxVectorSize=32 -XX:ThreadPriorityPolicy=1 -XX:+UseNUMA -XX:+UseDynamicNumberOfGCThreads -XX:NmethodSweepActivity=1 -XX:ReservedCodeCacheSize=350M -XX:-DontCompileHugeMethods -XX:MaxNodeLimit=240000 -XX:NodeLimitFudgeFactor=8000 -Dgraal.CompilerConfiguration=community",
        _ => "-XX:+UnlockExperimentalVMOptions -XX:+UnlockDiagnosticVMOptions -XX:+AlwaysActAsServerClassMachine -XX:+AlwaysPreTouch -XX:+DisableExplicitGC -XX:+UseNUMA -XX:NmethodSweepActivity=1 -XX:ReservedCodeCacheSize=400M -XX:NonNMethodCodeHeapSize=12M -XX:ProfiledCodeHeapSize=194M -XX:NonProfiledCodeHeapSize=194M -XX:-DontCompileHugeMethods -XX:MaxNodeLimit=240000 -XX:NodeLimitFudgeFactor=8000 -XX:+UseVectorCmov -XX:+PerfDisableSharedMem -XX:+UseFastUnorderedTimeStamps -XX:+UseCriticalJavaThreadPriority -XX:ThreadPriorityPolicy=1 -XX:AllocatePrefetchStyle=3",
    }
}

/// The automatic runtime selection: executable path and tuning flags for
/// the descriptor's required major version (0 standing for unspecified).
pub fn automatic_java(java_major: Option<i64>, mc_dir: &str, os: Os) -> (r: (String, Vec<String>))
    ensures
        ({
            let required = match java_major {
                Option::Some(v) => v as int,
                Option::None => 0,
            };
            let java = auto_java_spec(required);
            r.0@ == java_exec_path_spec(mc_dir@, java, os) && strutil::str_views(r.1@)
                == strutil::split_spec(java_flags_spec(java), seq![' '])
        }),
{
    let required: i64 = match java_major {
        Some(v) => v,
        None => 0,
    };
    let java = if required > 17 {
        crate::downloader::Java::J21
    } else if required > 8 || required == 0 {
        crate::downloader::Java::J17
    } else {
        crate::downloader::Java::J8
    };
    let path = java_exec_path(mc_dir, &java, os);
    let args = strutil::split_char(java_flags(&java), ' ');
    (path, args)
}

/// The managed runtime whose presence the pre-launch check must confirm for
/// a runtime policy: the selected generation for an explicit launcher
/// runtime; for the automatic policy, the generation the descriptor's
/// required major version (or 17 when unstated) maps to — none below 8; none
/// at all for a system or custom runtime.
pub open spec fn checked_java_spec(jt: JavaType, major: Option<i64>, alt: Option<i64>) -> Option<
    crate::downloader::Java,
> {
    match jt {
        JavaType::LauncherJava8 => Option::Some(crate::downloader::Java::J8),
        JavaType::LauncherJava17 => Option::Some(crate::downloader::Java::J17),
        JavaType::LauncherJava21 => Option::Some(crate::downloader::Java::J21),
        JavaType::Automatic => {
            let v: int = if major is Some {
                major->0 as int
            } else if alt is Some {
                alt->0 as int
            } else {
                17
            };
            if v > 17 {
                Option::Some(crate::downloader::Java::J21)
            } else if v > 8 {
                Option::Some(crate::downloader::Java::J17)
            } else if v == 8 {
                Option::Some(crate::downloader::Java::J8)
            } else {
                Option::None
            }
        },
        JavaType::System => Option::None,
        JavaType::Custom => Option::None,
    }
}

/// The managed runtime whose presence the pre-launch check must confirm.
pub fn required_launcher_java(jt: &JavaType, major: Option<i64>, alt: Option<i64>) -> (r: Option<
    crate::downloader::Java,
>)
    ensures
        r == checked_java_spec(*jt, major, alt),
{
    match jt {
        JavaType::LauncherJava8 => Some(crate::downloader::Java::J8),
        JavaType::LauncherJava17 => Some(crate::downloader::Java::J17),
        JavaType::LauncherJava21 => Some(crate::downloader::Java::J21),
        JavaType::Automatic => {
            let v: i64 = match major {
                Some(v) => v,
                None => match alt {
                    Some(v) => v,
                    None => 17,
                },
            };
            if v > 17 {
                Some(crate::downloader::Java::J21)
            } else if v > 8 {
                Some(crate::downloader::Java::J17)
            } else if v == 8 {
                Some(crate::downloader::Java::J8)
            } else {
                None
            }
        },
        JavaType::System => None,
        JavaType::Custom => None,
    }
}

/// What the repair flow must fetch: the candidates whose target is absent,
/// except that an absent natives staging jar counts only while the unpacked
/// natives directory is empty.
pub open spec fn select_missing_spec(
    cands: Seq<Download>,
    exists_flags: Seq<bool>,
    natives_empty: bool,
) -> Seq<Download>
    decreases cands.len(),
{
    if cands.len() == 0 {
        Seq::empty()
    } else {
        let rest = select_missing_spec(cands.drop_last(), exists_flags.drop_last(), natives_empty);
        if !exists_flags.last() && (!crate::downloader::is_staging_path(cands.last().path@)
            || natives_empty) {
            rest.push(cands.last())
        } else {
            rest
        }
    }
}

/// The candidates the repair flow must fetch.
pub fn select_missing(
    cands: Vec<Download>,
    exists_flags: &Vec<bool>,
    natives_empty: bool,
) -> (r: Vec<Download>)
    requires
        cands@.len() == exists_flags@.len(),
    ensures
        r@ == select_missing_spec(cands@, exists_flags@, natives_empty),
{
    let n = cands.len();
    let mut out: Vec<Download> = Vec::new();
    let mut i: usize = 0;
    while i < n
        invariant
            i <= n,
            n == cands@.len(),
            n == exists_flags@.len(),
            out@ == select_missing_spec(
                cands@.take(i as int),
                exists_flags@.take(i as int),
                natives_empty,
            ),
        decreases n - i,
    {
        proof {
            assert(cands@.take(i + 1).drop_last() =~= cands@.take(i as int));
            assert(exists_flags@.take(i + 1).drop_last() =~= exists_flags@.take(i as int));
            assert(cands@.take(i + 1).last() == cands@[i as int]);
            assert(exists_flags@.take(i + 1).last() == exists_flags@[i as int]);
        }
        if !exists_flags[i] {
            let t = &cands[i];
            if !crate::downloader::is_natives_staging(t.path.as_str()) || natives_empty {
                out.push(Download { path: t.path.clone(), url: t.url.clone() });
            }
        }
        i = i + 1;
    }
    proof {
        assert(cands@.take(n as int) =~= cands@);
        assert(exists_flags@.take(n as int) =~= exists_flags@);
    }
    out
}

/// The order of two version names, newest last: up to three numeric
/// segments, then a lexicographic tail.
pub fn get_version_order(a: &str, b: &str) -> (r: core::cmp::Ordering)
    ensures
        r == version_order_spec(a@, b@),
{
    let mut seps: Vec<char> = Vec::new();
    seps.push('.');
    seps.push('-');
    proof {
        assert(seps@ =~= seq!['.', '-']);
    }
    let pa = strutil::split_any(a, &seps);
    let pb = strutil::split_any(b, &seps);
    match seg_cmp(&pa, &pb, 0) {
        Some(o) => o,
        None => match seg_cmp(&pa, &pb, 1) {
            Some(o) => o,
            None => match seg_cmp(&pa, &pb, 2) {
                Some(o) => o,
                None => {
                    let ta: &str = if 3 < pa.len() {
                        pa[3].as_str()
                    } else {
                        ""
                    };
                    let tb: &str = if 3 < pb.len() {
                        pb[3].as_str()
                    } else {
                        ""
                    };
                    proof {
                        reveal_strlit("");
                        assert(""@ =~= Seq::<char>::empty());
                    }
                    strutil::str_cmp(ta, tb)
                },
            },
        },
    }
}

} // verus!
