use minelander::manifest::{
    decode_asset_index, decode_descriptor, decode_library, decode_loader_index,
    decode_version_index, filter_base_versions, filter_loader_versions, find_version_url,
    first_loader_version, parse_json, OsRule,
};

#[test]
fn descriptor_fields_are_decoded() {
    let doc = r#"{
        "id": "1.20.1",
        "mainClass": "net.minecraft.client.main.Main",
        "assets": "5",
        "assetIndex": {"url": "https://example.invalid/5.json"},
        "downloads": {"client": {"url": "https://example.invalid/client.jar"}},
        "inheritsFrom": "1.20",
        "javaVersion": {"majorVersion": 17},
        "arguments": {
            "jvm": [
                "-Xss1M",
                {"rules": [{"action": "allow", "os": {"name": "windows"}}],
                 "value": "-XX:HeapDumpPath=heap.hprof"}
            ],
            "game": ["--demo", {"value": "--fullscreen"}, {"value": 3}]
        },
        "libraries": [{"name": "a.b:c:1.0"}]
    }"#;
    let v = parse_json(doc).unwrap();
    let d = decode_descriptor(&v);
    assert_eq!(d.id.as_deref(), Some("1.20.1"));
    assert_eq!(d.main_class.as_deref(), Some("net.minecraft.client.main.Main"));
    assert_eq!(d.assets.as_deref(), Some("5"));
    assert_eq!(d.asset_index_url.as_deref(), Some("https://example.invalid/5.json"));
    assert_eq!(d.client_url.as_deref(), Some("https://example.invalid/client.jar"));
    assert_eq!(d.inherits_from.as_deref(), Some("1.20"));
    assert_eq!(d.java_major, Some(17));
    // Rule-gated object entries of the JVM array are skipped whole; only the
    // plain string templates survive. Object values count for game templates.
    assert_eq!(d.jvm_args, Some(vec![String::from("-Xss1M")]));
    assert_eq!(
        d.game_args,
        Some(vec![String::from("--demo"), String::from("--fullscreen")])
    );
    assert_eq!(d.libraries.len(), 1);
    assert_eq!(d.libraries[0].name.as_deref(), Some("a.b:c:1.0"));
}

#[test]
fn malformed_document_is_a_parse_error() {
    assert!(parse_json("{not json").is_err());
}

#[test]
fn library_rule_and_classifiers_are_decoded() {
    let doc = r#"{
        "name": "org.lwjgl:lwjgl:2.9.1",
        "rules": [{"action": "allow", "os": {"name": "linux"}}],
        "natives": {"linux": "natives-linux", "osx": null},
        "downloads": {
            "artifact": {"url": "https://example.invalid/a.jar"},
            "classifiers": {"natives-linux": {"url": "https://example.invalid/n.jar"}}
        },
        "url": "https://example.invalid/base/"
    }"#;
    let v = parse_json(doc).unwrap();
    let e = decode_library(&v);
    assert!(matches!(e.rule_os, OsRule::Named(ref n) if n == "linux"));
    assert_eq!(e.natives_keys, vec![String::from("linux")]);
    assert_eq!(e.artifact_url.as_deref(), Some("https://example.invalid/a.jar"));
    assert_eq!(e.url_override.as_deref(), Some("https://example.invalid/base/"));
    assert_eq!(e.classifiers.len(), 1);
    assert_eq!(e.classifiers[0].0, "natives-linux");
    assert_eq!(e.classifiers[0].1.as_deref(), Some("https://example.invalid/n.jar"));
}

#[test]
fn library_without_rules_applies_everywhere() {
    let v = parse_json(r#"{"name": "a.b:c:1.0"}"#).unwrap();
    let e = decode_library(&v);
    assert!(matches!(e.rule_os, OsRule::NoRule));
}

#[test]
fn asset_index_objects_are_decoded_in_order() {
    let doc = r#"{
        "objects": {
            "icons/icon_16x16.png": {"hash": "bdf48ef6b5d0d23bbb02e17d04865216179f510a"},
            "minecraft/sounds/ambient.ogg": {"hash": "aaf48ef6b5d0d23bbb02e17d04865216179f510a"}
        }
    }"#;
    let v = parse_json(doc).unwrap();
    let idx = decode_asset_index(&v);
    assert!(!idx.map_to_resources);
    assert_eq!(idx.objects.len(), 2);
    assert_eq!(idx.objects[0].0, "icons/icon_16x16.png");
    assert_eq!(
        idx.objects[0].1.as_deref(),
        Some("bdf48ef6b5d0d23bbb02e17d04865216179f510a")
    );
}

#[test]
fn legacy_map_to_resources_flag_is_seen() {
    let v = parse_json(r#"{"map_to_resources": true, "objects": {}}"#).unwrap();
    assert!(decode_asset_index(&v).map_to_resources);
}

#[test]
fn version_index_lookup_finds_the_document_url() {
    let doc = r#"{
        "versions": [
            {"id": "1.20.1", "type": "release", "url": "https://example.invalid/1.20.1.json"},
            {"id": "23w31a", "type": "snapshot", "url": "https://example.invalid/23w31a.json"}
        ]
    }"#;
    let v = parse_json(doc).unwrap();
    let entries = decode_version_index(&v);
    assert_eq!(
        find_version_url(&entries, "1.20.1").as_deref(),
        Some("https://example.invalid/1.20.1.json")
    );
    assert_eq!(find_version_url(&entries, "9.9.9"), None);
}

#[test]
fn version_index_lookup_takes_the_first_bearer_of_an_id() {
    let doc = r#"{
        "versions": [
            {"id": "1.20.1", "url": "https://example.invalid/first.json"},
            {"id": "1.20.1", "url": "https://example.invalid/second.json"}
        ]
    }"#;
    let v = parse_json(doc).unwrap();
    let entries = decode_version_index(&v);
    assert_eq!(
        find_version_url(&entries, "1.20.1").as_deref(),
        Some("https://example.invalid/first.json")
    );
}

#[test]
fn version_index_entry_without_a_url_fails_the_lookup() {
    let doc = r#"{
        "versions": [
            {"id": "1.20.1", "type": "release"},
            {"id": "1.20.1", "url": "https://example.invalid/second.json"}
        ]
    }"#;
    let v = parse_json(doc).unwrap();
    let entries = decode_version_index(&v);
    // The first bearer of the id decides; it has no url, so the lookup fails.
    assert_eq!(find_version_url(&entries, "1.20.1"), None);
}

#[test]
fn release_filter_hides_prereleases() {
    let doc = r#"{
        "versions": [
            {"id": "1.20.1", "type": "release", "url": "u"},
            {"id": "23w31a", "type": "snapshot", "url": "u"}
        ]
    }"#;
    let v = parse_json(doc).unwrap();
    let entries = decode_version_index(&v);
    assert_eq!(filter_base_versions(&entries, false), vec![String::from("1.20.1")]);
    assert_eq!(
        filter_base_versions(&entries, true),
        vec![String::from("1.20.1"), String::from("23w31a")]
    );
}

#[test]
fn loader_index_head_is_the_latest_loader() {
    let doc = r#"[
        {"version": "0.15.11", "stable": true},
        {"version": "0.15.10", "stable": false}
    ]"#;
    let v = parse_json(doc).unwrap();
    let entries = decode_loader_index(&v);
    assert_eq!(first_loader_version(&entries).as_deref(), Some("0.15.11"));
    assert_eq!(filter_loader_versions(&entries, false), vec![String::from("0.15.11")]);
    assert_eq!(
        filter_loader_versions(&entries, true),
        vec![String::from("0.15.11"), String::from("0.15.10")]
    );
}
