use minelander::downloader::{Download, Java, VersionType};
use minelander::launcher::JavaType;
use minelander::session::{
    java_type_from_name, parse_env_pairs, Downloader, DownloaderState, Launcher, LauncherState,
};
use minelander::update_manager::update_decision;
use minelander::{get_config_file_path, get_vec_from, Os};

#[test]
fn flag_strings_split_on_spaces() {
    assert_eq!(get_vec_from("-Xss1M -XX:+UseNUMA"), vec!["-Xss1M", "-XX:+UseNUMA"]);
    assert_eq!(get_vec_from(""), vec![""]);
}

#[test]
fn settings_file_lives_under_the_game_directory() {
    assert_eq!(get_config_file_path("/mc"), "/mc/minelander_settings.json");
}

#[test]
fn environment_pairs_are_parsed() {
    let pairs = parse_env_pairs("MESA_DEBUG=1 __GL_SYNC=0 plain");
    assert_eq!(
        pairs,
        vec![
            (String::from("MESA_DEBUG"), String::from("1")),
            (String::from("__GL_SYNC"), String::from("0")),
        ]
    );
    assert_eq!(parse_env_pairs("A=B=C"), vec![(String::from("A"), String::from("B"))]);
}

#[test]
fn runtime_policy_names() {
    assert_eq!(java_type_from_name("Automatic"), JavaType::Automatic);
    assert_eq!(java_type_from_name("System Java"), JavaType::System);
    assert_eq!(java_type_from_name("Java 8 (Minelander)"), JavaType::LauncherJava8);
    assert_eq!(java_type_from_name("Java 17 (Minelander)"), JavaType::LauncherJava17);
    assert_eq!(java_type_from_name("Java 21 (Minelander)"), JavaType::LauncherJava21);
    assert_eq!(java_type_from_name("GraalVM"), JavaType::Custom);
}

#[test]
fn launcher_handle_records_the_request() {
    let mut l = Launcher::default();
    assert!(matches!(l.state, LauncherState::Idle));
    let settings = minelander::launcher::GameSettings {
        account: minelander::auth::MinecraftAccount::default(),
        game_version: String::from("1.20.1"),
        jvm: String::new(),
        jvmargs: Vec::new(),
        ram_megabytes: 2048,
        game_directory: String::from("Default"),
        java_type: JavaType::Automatic,
        game_wrapper_commands: Vec::new(),
        enviroment_variables: Vec::new(),
    };
    l.start(settings);
    assert!(matches!(l.state, LauncherState::Launching(_)));
}

#[test]
fn downloader_handle_records_each_request() {
    let mut d = Downloader::new(3);
    assert_eq!(d.id, 3);
    d.start(String::from("1.20.1"), VersionType::Fabric);
    assert!(matches!(d.state, DownloaderState::Downloading(_, VersionType::Fabric)));
    d.start_java(Java::J21);
    assert!(matches!(d.state, DownloaderState::JavaDownloading(Java::J21)));
    d.start_update(String::from("https://example.invalid/new"));
    assert!(matches!(d.state, DownloaderState::Update(_)));
    d.start_missing_files(vec![Download {
        path: String::from("/mc/a"),
        url: String::from("u"),
    }]);
    assert!(matches!(d.state, DownloaderState::DownloadingMissingFiles(_)));
}

#[test]
fn newer_release_yields_the_platform_artifact() {
    let assets = vec![
        (String::from("minelander-windows.exe"), String::from("https://example.invalid/w")),
        (String::from("minelander-linux"), String::from("https://example.invalid/l")),
    ];
    let r = update_decision("1.2.3", "1.2.4", &assets, Os::Linux).unwrap();
    assert_eq!(r.0, "https://example.invalid/l");
    assert_eq!(r.1, "1.2.4");
    let r = update_decision("1.2.3", "1.2.4", &assets, Os::Windows).unwrap();
    assert_eq!(r.0, "https://example.invalid/w");
}

#[test]
fn current_release_is_refused() {
    let assets = Vec::new();
    let e = update_decision("1.2.3", "1.2.3", &assets, Os::Linux).unwrap_err();
    assert_eq!(e, "Your Minelander is updated!");
    let e = update_decision("1.2.3", "v-next", &assets, Os::Linux).unwrap_err();
    assert_eq!(e, "Failed to parse latest version number.");
}

#[test]
fn release_without_matching_artifact_yields_an_empty_url() {
    let assets = vec![(String::from("minelander-macos"), String::from("u"))];
    let r = update_decision("1.2.3", "1.2.4", &assets, Os::Linux).unwrap();
    assert_eq!(r.0, "");
}
