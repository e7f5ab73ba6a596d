use minelander::downloader::{
    filter_missing, get_assets, get_libraries, get_library_url, plan, version_dir_name, Download,
    VersionType,
};
use minelander::manifest::{AssetIndex, LibraryEntry, OsRule, VersionDescriptor};
use minelander::Os;

fn plain_library(name: &str) -> LibraryEntry {
    LibraryEntry {
        name: Some(name.to_string()),
        rule_os: OsRule::NoRule,
        natives_keys: Vec::new(),
        artifact_url: None,
        url_override: None,
        classifiers: Vec::new(),
    }
}

fn empty_descriptor() -> VersionDescriptor {
    VersionDescriptor {
        id: None,
        main_class: None,
        assets: None,
        asset_index_url: None,
        client_url: None,
        inherits_from: None,
        java_major: None,
        java_version_alt: None,
        libraries: Vec::new(),
        jvm_args: None,
        game_args: None,
        minecraft_arguments: None,
    }
}

#[test]
fn normal_library_path_and_default_url() {
    let mc = String::from("/mc");
    let libs = vec![plain_library("com.google.guava:guava:31.0")];
    let folder = String::from("/mc/versions/1.20.1");
    let tasks = get_libraries(&mc, &libs, &folder, Os::Linux).unwrap();
    assert_eq!(tasks.len(), 1);
    assert_eq!(tasks[0].path, "/mc/libraries/com/google/guava/guava/31.0/guava-31.0.jar");
    assert_eq!(
        tasks[0].url,
        "https://libraries.minecraft.net/com/google/guava/guava/31.0/guava-31.0.jar"
    );
}

#[test]
fn natives_coordinate_on_its_platform() {
    let mc = String::from("/mc");
    let libs = vec![plain_library("org.lwjgl:lwjgl:3.3.1:natives-linux")];
    let folder = String::from("/mc/versions/1.20.1");
    let tasks = get_libraries(&mc, &libs, &folder, Os::Linux).unwrap();
    assert_eq!(tasks.len(), 1);
    assert_eq!(
        tasks[0].path,
        "/mc/libraries/org/lwjgl/lwjgl/3.3.1/lwjgl-3.3.1-natives-linux.jar"
    );
}

#[test]
fn natives_for_other_platform_with_rule_is_dropped() {
    // The scenario of a natives bundle named for another platform: the OS
    // rule excludes it before classification, and nothing is emitted.
    let mc = String::from("/mc");
    let mut lib = plain_library("org.lwjgl:lwjgl:3.3.1:natives-linux");
    lib.rule_os = OsRule::Named(String::from("linux"));
    let folder = String::from("/mc/versions/1.20.1");
    let tasks = get_libraries(&mc, &vec![lib], &folder, Os::Windows).unwrap();
    assert_eq!(tasks.len(), 0);
}

#[test]
fn rule_mismatch_emits_nothing_even_with_classifier() {
    let mc = String::from("/mc");
    let mut lib = plain_library("a.b:c:1");
    lib.rule_os = OsRule::Named(String::from("windows"));
    lib.classifiers = vec![(
        String::from("natives-linux"),
        Some(String::from("https://example.invalid/n.jar")),
    )];
    let folder = String::from("/mc/versions/1.20.1");
    let tasks = get_libraries(&mc, &vec![lib], &folder, Os::Linux).unwrap();
    assert_eq!(tasks.len(), 0);
}

#[test]
fn legacy_natives_classifier_adds_staging_task() {
    let mc = String::from("/mc");
    let mut lib = plain_library("net.java.jinput:jinput-platform:2.0.5");
    lib.natives_keys = vec![String::from("linux")];
    lib.classifiers = vec![(
        String::from("natives-linux"),
        Some(String::from("https://example.invalid/jinput-natives.jar")),
    )];
    let folder = String::from("/mc/versions/1.6.4");
    let tasks = get_libraries(&mc, &vec![lib], &folder, Os::Linux).unwrap();
    assert_eq!(tasks.len(), 2);
    assert_eq!(
        tasks[0].path,
        "/mc/libraries/net/java/jinput/jinput-platform/2.0.5/jinput-platform-2.0.5-natives-linux.jar"
    );
    assert_eq!(tasks[0].url, "https://example.invalid/jinput-natives.jar");
    assert_eq!(tasks[1].path, "/mc/versions/1.6.4/natives/natives.jar");
    assert_eq!(tasks[1].url, "https://example.invalid/jinput-natives.jar");
}

#[test]
fn url_override_rules() {
    assert_eq!(
        get_library_url("https://maven.example/", String::from("a/b/c.jar")),
        "https://maven.example/a/b/c.jar"
    );
    assert_eq!(
        get_library_url("", String::from("a/b/c.jar")),
        "https://libraries.minecraft.net/a/b/c.jar"
    );
    assert_eq!(
        get_library_url("https://direct.example/d.jar", String::from("a/b/c.jar")),
        "https://direct.example/d.jar"
    );
}

#[test]
fn library_without_name_is_refused_when_it_applies() {
    let mc = String::from("/mc");
    let mut lib = plain_library("x");
    lib.name = None;
    let folder = String::from("/mc/versions/1");
    assert!(get_libraries(&mc, &vec![lib], &folder, Os::Linux).is_err());
}

#[test]
fn asset_tasks_are_content_addressed() {
    let idx = AssetIndex {
        map_to_resources: false,
        objects: vec![(
            String::from("minecraft/sounds/ambient.ogg"),
            Some(String::from("abcdef0123456789abcdef0123456789abcdef01")),
        )],
    };
    let tasks = get_assets(&String::from("/mc"), &idx).unwrap();
    assert_eq!(tasks.len(), 1);
    assert_eq!(
        tasks[0].path,
        "/mc/assets/objects/ab/abcdef0123456789abcdef0123456789abcdef01"
    );
    assert_eq!(
        tasks[0].url,
        "https://resources.download.minecraft.net/ab/abcdef0123456789abcdef0123456789abcdef01"
    );
}

#[test]
fn legacy_resources_layout_files_by_name() {
    let idx = AssetIndex {
        map_to_resources: true,
        objects: vec![(
            String::from("sound/step/grass1.ogg"),
            Some(String::from("fe1234fe1234fe1234fe1234fe1234fe1234fe12")),
        )],
    };
    let tasks = get_assets(&String::from("/mc"), &idx).unwrap();
    assert_eq!(tasks.len(), 1);
    assert_eq!(tasks[0].path, "/mc/resources/sound/step/grass1.ogg");
    assert_eq!(
        tasks[0].url,
        "https://resources.download.minecraft.net/fe/fe1234fe1234fe1234fe1234fe1234fe1234fe12"
    );
}

#[test]
fn asset_generation_run_twice_gives_identical_paths() {
    let idx = AssetIndex {
        map_to_resources: false,
        objects: vec![
            (String::from("a"), Some(String::from("0011223344"))),
            (String::from("b"), Some(String::from("0011223344"))),
        ],
    };
    let once = get_assets(&String::from("/mc"), &idx).unwrap();
    let twice = get_assets(&String::from("/mc"), &idx).unwrap();
    assert_eq!(once, twice);
    // Same hash, different logical name: same object-store path.
    assert_eq!(once[0].path, once[1].path);
}

#[test]
fn plan_lists_client_assets_then_libraries() {
    let mut vanilla = empty_descriptor();
    vanilla.client_url = Some(String::from("https://example.invalid/client.jar"));
    vanilla.libraries = vec![plain_library("a.b:c:1.0")];
    let idx = AssetIndex {
        map_to_resources: false,
        objects: vec![(String::from("x"), Some(String::from("77aa77aa")))],
    };
    let mc = String::from("/mc");
    let tasks = plan(&vanilla, None, &idx, "1.20.1", &VersionType::Vanilla, &mc, Os::Linux)
        .unwrap();
    assert_eq!(tasks.len(), 3);
    assert_eq!(tasks[0].path, "/mc/versions/1.20.1/1.20.1.jar");
    assert_eq!(tasks[0].url, "https://example.invalid/client.jar");
    assert_eq!(tasks[1].path, "/mc/assets/objects/77/77aa77aa");
    assert_eq!(tasks[2].path, "/mc/libraries/a/b/c/1.0/c-1.0.jar");
}

#[test]
fn plan_is_deterministic_across_runs() {
    let mut vanilla = empty_descriptor();
    vanilla.client_url = Some(String::from("https://example.invalid/client.jar"));
    vanilla.libraries = vec![
        plain_library("a.b:c:1.0"),
        plain_library("d.e:f:2.0"),
    ];
    let idx = AssetIndex {
        map_to_resources: false,
        objects: vec![(String::from("x"), Some(String::from("77aa77aa")))],
    };
    let mc = String::from("/mc");
    let first = plan(&vanilla, None, &idx, "1.20.1", &VersionType::Vanilla, &mc, Os::Linux)
        .unwrap();
    let second = plan(&vanilla, None, &idx, "1.20.1", &VersionType::Vanilla, &mc, Os::Linux)
        .unwrap();
    assert_eq!(first, second);
}

#[test]
fn plan_without_client_url_is_refused() {
    let vanilla = empty_descriptor();
    let idx = AssetIndex { map_to_resources: false, objects: Vec::new() };
    let mc = String::from("/mc");
    assert!(plan(&vanilla, None, &idx, "1.20.1", &VersionType::Vanilla, &mc, Os::Linux).is_err());
}

#[test]
fn fabric_version_directory_name() {
    assert_eq!(version_dir_name("1.20.1", &VersionType::Fabric), "1.20.1-fabric");
    assert_eq!(version_dir_name("1.20.1", &VersionType::Vanilla), "1.20.1");
}

#[test]
fn filtering_excludes_tasks_already_on_disk() {
    let tasks = vec![
        Download { path: String::from("/mc/a.jar"), url: String::from("u1") },
        Download { path: String::from("/mc/b.jar"), url: String::from("u2") },
    ];
    let kept = filter_missing(tasks, &vec![true, false]);
    assert_eq!(kept.len(), 1);
    assert_eq!(kept[0].path, "/mc/b.jar");
}
