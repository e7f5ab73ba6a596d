use minelander::auth::MinecraftAccount;
use minelander::downloader::Java;
use minelander::launcher::{
    automatic_java, compose, generate_uuid, get_game_args, get_game_jvm_args, get_version_order,
    lib_manager, required_launcher_java, GameSettings, JavaType,
};
use minelander::manifest::{LibraryEntry, OsRule, VersionDescriptor};
use minelander::Os;

fn empty_descriptor() -> VersionDescriptor {
    VersionDescriptor {
        id: None,
        main_class: None,
        assets: None,
        asset_index_url: None,
        client_url: None,
        inherits_from: None,
        java_major: None,
        java_version_alt: None,
        libraries: Vec::new(),
        jvm_args: None,
        game_args: None,
        minecraft_arguments: None,
    }
}

fn plain_library(name: &str) -> LibraryEntry {
    LibraryEntry {
        name: Some(name.to_string()),
        rule_os: OsRule::NoRule,
        natives_keys: Vec::new(),
        artifact_url: None,
        url_override: None,
        classifiers: Vec::new(),
    }
}

fn settings_for(version: &str) -> GameSettings {
    GameSettings {
        account: MinecraftAccount {
            username: String::from("steve"),
            token: String::from("token123"),
            uuid: String::from("11111111-2222-3333-4444-555555555555"),
        },
        game_version: version.to_string(),
        jvm: String::new(),
        jvmargs: Vec::new(),
        ram_megabytes: 2560,
        game_directory: String::from("Default"),
        java_type: JavaType::System,
        game_wrapper_commands: Vec::new(),
        enviroment_variables: Vec::new(),
    }
}

fn gamedata_sample() -> Vec<String> {
    vec![
        String::from("steve"),
        String::from("1.20.1"),
        String::from("/mc"),
        String::from("/mc/assets"),
        String::from("5"),
        String::from("uuid-x"),
        String::from("tok"),
        String::from("{}"),
        String::from("legacy"),
        String::from("Release"),
        String::from("Modified"),
        String::from("/mc/libraries/a.jar"),
    ]
}

#[test]
fn recognized_tokens_are_all_replaced() {
    let args = vec![
        String::from("--username"),
        String::from("${auth_player_name}"),
        String::from("--assetIndex"),
        String::from("${assets_index_name}"),
        String::from("--uuid"),
        String::from("${auth_uuid}"),
        String::from("--accessToken"),
        String::from("${auth_access_token}"),
        String::from("--userType"),
        String::from("${user_type}"),
        String::from("--demo"),
        String::from("${unknown_token}"),
    ];
    let out = get_game_args(args, &gamedata_sample(), "/mc");
    assert_eq!(
        out,
        vec![
            String::from("--username"),
            String::from("steve"),
            String::from("--assetIndex"),
            String::from("5"),
            String::from("--uuid"),
            String::from("uuid-x"),
            String::from("--accessToken"),
            String::from("tok"),
            String::from("--userType"),
            String::from("legacy"),
            String::from("${unknown_token}"),
        ]
    );
}

#[test]
fn game_assets_token_maps_to_resources_dir() {
    let out = get_game_args(vec![String::from("${game_assets}")], &gamedata_sample(), "/mc");
    assert_eq!(out, vec![String::from("/mc/resources")]);
}

#[test]
fn jvm_templates_are_substituted_and_classpath_dropped() {
    let mut p = empty_descriptor();
    p.id = Some(String::from("1.20.1"));
    p.jvm_args = Some(vec![
        String::from("-Djava.library.path=${natives_directory}"),
        String::from("-DlibDir=${library_directory}"),
        String::from("-Dsep=${classpath_separator}"),
        String::from("-Dver=${version_name}"),
        String::from("${classpath}"),
        String::from("-cp"),
    ]);
    let out = get_game_jvm_args(&p, "/mc/versions/1.20.1/natives", "/mc", Os::Linux).unwrap();
    assert_eq!(
        out,
        vec![
            String::from("-Djava.library.path=/mc/versions/1.20.1/natives"),
            String::from("-DlibDir=/mc/libraries"),
            String::from("-Dsep=:"),
            String::from("-Dver=1.20.1"),
        ]
    );
}

#[test]
fn missing_jvm_template_array_gives_legacy_library_path() {
    let p = empty_descriptor();
    let out = get_game_jvm_args(&p, "/mc/versions/1.7.10/natives", "/mc", Os::Linux).unwrap();
    assert_eq!(out, vec![String::from("-Djava.library.path=/mc/versions/1.7.10/natives")]);
}

#[test]
fn classpath_skips_broken_streaming_library() {
    let mut p = empty_descriptor();
    let mut twitch = plain_library("tv.twitch:twitch-platform:6.5");
    twitch.natives_keys = vec![String::from("linux")];
    p.libraries = vec![plain_library("a.b:c:1.0"), twitch];
    let cp = lib_manager(&p, "/mc", Os::Linux).unwrap();
    assert_eq!(cp, "/mc/libraries/a/b/c/1.0/c-1.0.jar:");
}

#[test]
fn classpath_ends_with_version_jar() {
    // The plain launch scenario: version 1.20.1, no inheritance.
    let mut p = empty_descriptor();
    p.id = Some(String::from("1.20.1"));
    p.main_class = Some(String::from("net.minecraft.client.main.Main"));
    p.assets = Some(String::from("5"));
    p.libraries = vec![plain_library("a.b:c:1.0")];
    let settings = settings_for("1.20.1");
    let cmd = compose(&p, None, &settings, "/mc", Os::Linux).unwrap();
    let cp_pos = cmd.args.iter().position(|a| a == "-cp").unwrap();
    let cp = &cmd.args[cp_pos + 1];
    assert!(cp.ends_with("versions/1.20.1/1.20.1.jar"));
    assert_eq!(cp, "/mc/libraries/a/b/c/1.0/c-1.0.jar:/mc/versions/1.20.1/1.20.1.jar");
    // One single separator-joined string, then the main class.
    assert_eq!(cmd.args[cp_pos + 2], "net.minecraft.client.main.Main");
    assert_eq!(cmd.program, "java");
    assert_eq!(cmd.args[0], "-Xmx2560M");
}

#[test]
fn overlay_launch_appends_overlay_jvm_args_and_keeps_base_asset_index() {
    // The overlay scenario: 1.20.1-fabric inheriting from 1.20.1.
    let mut overlay = empty_descriptor();
    overlay.id = Some(String::from("1.20.1-fabric"));
    overlay.main_class = Some(String::from("net.fabricmc.loader.impl.launch.knot.KnotClient"));
    overlay.inherits_from = Some(String::from("1.20.1"));
    overlay.assets = Some(String::from("overlay-assets"));
    overlay.jvm_args = Some(vec![String::from("-DFabricMcEmu=net.minecraft.client.main.Main")]);
    overlay.game_args = Some(vec![String::from("${assets_index_name}")]);

    let mut base = empty_descriptor();
    base.id = Some(String::from("1.20.1"));
    base.assets = Some(String::from("5"));
    base.jvm_args = Some(vec![String::from("-Xss1M")]);
    base.game_args = Some(vec![String::from("--version"), String::from("${version_name}")]);

    let settings = settings_for("1.20.1-fabric");
    let cmd = compose(&overlay, Some(&base), &settings, "/mc", Os::Linux).unwrap();

    // Base JVM arguments come first, the overlay's are appended.
    let base_pos = cmd.args.iter().position(|a| a == "-Xss1M").unwrap();
    let overlay_pos = cmd.args
        .iter()
        .position(|a| a == "-DFabricMcEmu=net.minecraft.client.main.Main")
        .unwrap();
    assert!(base_pos < overlay_pos);

    // The asset-index id handed to the game is the base's, not the overlay's.
    assert!(cmd.args.iter().any(|a| a == "5"));
    assert!(!cmd.args.iter().any(|a| a == "overlay-assets"));
}

#[test]
fn automatic_selection_picks_newest_for_major_21() {
    let (path, _args) = automatic_java(Some(21), "/mc", Os::Linux);
    assert_eq!(path, "/mc/minelander_java/java21/bin/java");
}

#[test]
fn automatic_selection_defaults_to_middle_runtime() {
    let (path, _args) = automatic_java(None, "/mc", Os::Linux);
    assert_eq!(path, "/mc/minelander_java/java17/bin/java");
    assert_eq!(required_launcher_java(&JavaType::Automatic, None, None), Some(Java::J17));
    assert_eq!(required_launcher_java(&JavaType::Automatic, Some(21), None), Some(Java::J21));
    assert_eq!(required_launcher_java(&JavaType::Automatic, Some(8), None), Some(Java::J8));
    assert_eq!(required_launcher_java(&JavaType::System, Some(21), None), None);
}

#[test]
fn local_account_uuid_is_derived_from_username() {
    assert_eq!(generate_uuid("steve"), "d69403e2-673e-611d-4cbd-3fad6fd1788e");
    assert_eq!(generate_uuid("alex"), "534b44a1-9bf1-8d20-b71e-cc4eb77c572f");
}

#[test]
fn compose_uses_derived_uuid_for_local_accounts() {
    let mut p = empty_descriptor();
    p.id = Some(String::from("1.20.1"));
    p.main_class = Some(String::from("net.minecraft.client.main.Main"));
    p.game_args = Some(vec![String::from("${auth_uuid}")]);
    let mut settings = settings_for("1.20.1");
    settings.account.uuid = String::new();
    let cmd = compose(&p, None, &settings, "/mc", Os::Linux).unwrap();
    assert!(cmd.args.iter().any(|a| a == "d69403e2-673e-611d-4cbd-3fad6fd1788e"));
}

#[test]
fn compose_without_main_class_is_refused() {
    let p = empty_descriptor();
    let settings = settings_for("1.20.1");
    assert!(compose(&p, None, &settings, "/mc", Os::Linux).is_err());
}

#[test]
fn wrapper_command_leads_the_invocation() {
    let mut p = empty_descriptor();
    p.id = Some(String::from("1.20.1"));
    p.main_class = Some(String::from("net.minecraft.client.main.Main"));
    let mut settings = settings_for("1.20.1");
    settings.game_wrapper_commands = vec![
        String::from("gamemoderun"),
        String::from("--quiet"),
    ];
    let cmd = compose(&p, None, &settings, "/mc", Os::Linux).unwrap();
    assert_eq!(cmd.program, "gamemoderun");
    assert_eq!(cmd.args[0], "--quiet");
    assert_eq!(cmd.args[1], "java");
    assert_eq!(cmd.args[2], "-Xmx2560M");
}

#[test]
fn version_order_compares_numeric_segments() {
    assert_eq!(get_version_order("1.20.1", "1.19.4"), std::cmp::Ordering::Greater);
    assert_eq!(get_version_order("1.19.4", "1.20.1"), std::cmp::Ordering::Less);
    assert_eq!(get_version_order("2.0.0", "10.0.0"), std::cmp::Ordering::Less);
    assert_eq!(get_version_order("1.20.1", "1.20.1"), std::cmp::Ordering::Equal);
    assert_eq!(get_version_order("1.20.1-pre1", "1.20.1-pre2"), std::cmp::Ordering::Less);
    // A numeric segment outranks a non-numeric one.
    assert_eq!(get_version_order("1.20.1", "1.x.1"), std::cmp::Ordering::Greater);
    // A missing segment ties instead of losing.
    assert_eq!(get_version_order("1.20", "1.20.1"), std::cmp::Ordering::Equal);
}
