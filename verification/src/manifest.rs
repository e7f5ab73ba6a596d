//! Typed schema for the version metadata documents, and the decode boundary
//! that turns loosely typed JSON values into it. Everything downstream of the
//! decode step works on these plain types and carries exact contracts; the
//! JSON reading itself goes through trusted declarations over `serde_json`.
use vstd::prelude::*;

verus! {

#[verifier::external_type_specification]
#[verifier::external_body]
pub struct ExValue(serde_json::Value);

/// Relies on serde_json::from_str: parses a JSON document, failing on
/// malformed input. Nothing is assumed about the parsed value.
#[verifier::external_body]
pub fn parse_json(s: &str) -> (r: Result<serde_json::Value, String>) {
    match serde_json::from_str::<serde_json::Value>(s) {
        Ok(v) => Ok(v),
        Err(e) => Err(e.to_string()),
    }
}

/// Relies on serde_json::Value::get: looks a key up in a JSON object.
#[verifier::external_body]
fn json_get<'a>(v: &'a serde_json::Value, key: &str) -> (r: Option<&'a serde_json::Value>) {
    v.get(key)
}

/// Relies on serde_json::Value::as_str: the string content of a JSON string.
#[verifier::external_body]
fn json_as_string(v: &serde_json::Value) -> (r: Option<String>) {
    v.as_str().map(|s| s.to_owned())
}

/// Relies on serde_json::Value::as_array: the elements of a JSON array.
#[verifier::external_body]
fn json_as_array<'a>(v: &'a serde_json::Value) -> (r: Option<&'a Vec<serde_json::Value>>) {
    v.as_array()
}

/// Relies on serde_json::Value::as_i64: the integer content of a JSON number.
#[verifier::external_body]
fn json_as_i64(v: &serde_json::Value) -> (r: Option<i64>) {
    v.as_i64()
}

/// Relies on serde_json::Value::as_bool: the content of a JSON boolean.
#[verifier::external_body]
fn json_as_bool(v: &serde_json::Value) -> (r: Option<bool>) {
    v.as_bool()
}

/// Relies on serde_json::Value::is_null: whether the value is JSON null.
#[verifier::external_body]
fn json_is_null(v: &serde_json::Value) -> (r: bool) {
    v.is_null()
}

/// Relies on serde_json::Value::is_string: whether the value is a JSON string.
#[verifier::external_body]
fn json_is_string(v: &serde_json::Value) -> (r: bool) {
    v.is_string()
}

/// Relies on serde_json::Value::as_object: the key/value pairs of a JSON
/// object, in the order the parsed map yields them (the parser's default
/// map is ordered by key).
#[verifier::external_body]
fn json_object_entries(v: &serde_json::Value) -> (r: Option<Vec<(String, serde_json::Value)>>) {
    v.as_object().map(|m| m.iter().map(|(k, val)| (k.clone(), val.clone())).collect())
}

/// The platform rule attached to a library entry: absent (the entry always
/// applies), a named operating system, or something unrecognized (the entry
/// never applies).
#[derive(Debug, Clone)]
pub enum OsRule {
    NoRule,
    Named(String),
    Unrecognized,
}

/// One dependency of a version: a Maven-style coordinate plus the fields of
/// its metadata record that path and URL derivation reads.
#[derive(Debug, Clone)]
pub struct LibraryEntry {
    /// The `group:artifact:version[:classifier]` coordinate.
    pub name: Option<String>,
    /// The platform rule, taken from the first rule of the record.
    pub rule_os: OsRule,
    /// The platform names for which a legacy natives classifier map entry
    /// exists (with a non-null value).
    pub natives_keys: Vec<String>,
    /// The direct artifact URL, when the record carries one.
    pub artifact_url: Option<String>,
    /// The per-library URL override.
    pub url_override: Option<String>,
    /// The classifier map: classifier name to its download URL.
    pub classifiers: Vec<(String, Option<String>)>,
}

/// The parsed form of one version's metadata document.
#[derive(Debug, Clone)]
pub struct VersionDescriptor {
    pub id: Option<String>,
    pub main_class: Option<String>,
    /// The asset-index identifier.
    pub assets: Option<String>,
    pub asset_index_url: Option<String>,
    pub client_url: Option<String>,
    pub inherits_from: Option<String>,
    /// The required runtime major version (`javaVersion.majorVersion`).
    pub java_major: Option<i64>,
    /// The alternate spelling of the required runtime version
    /// (`javaVersion.Version`), honoured by the pre-launch check.
    pub java_version_alt: Option<i64>,
    pub libraries: Vec<LibraryEntry>,
    /// The modern JVM argument templates (`arguments.jvm`), string entries
    /// only; absent when the document has no such array.
    pub jvm_args: Option<Vec<String>>,
    /// The modern game argument templates (`arguments.game`): string entries
    /// and the string `value` of object entries.
    pub game_args: Option<Vec<String>>,
    /// The legacy whitespace-joined game argument template.
    pub minecraft_arguments: Option<String>,
}

/// A mapping from logical asset names to content hashes.
#[derive(Debug, Clone)]
pub struct AssetIndex {
    /// Whether the index asks for the legacy `resources/` layout.
    pub map_to_resources: bool,
    /// Asset name and content hash, one pair per object entry, in the order
    /// the parsed map yields them (ordered by name); entries whose hash is
    /// not a string carry `None`.
    pub objects: Vec<(String, Option<String>)>,
}

/// One entry of the remote version index.
#[derive(Debug, Clone)]
pub struct VersionIndexEntry {
    pub id: Option<String>,
    pub url: Option<String>,
    /// Whether the entry's `type` field is the string `release`.
    pub is_release: bool,
}

/// One entry of the remote mod-loader game-version index.
#[derive(Debug, Clone)]
pub struct LoaderIndexEntry {
    pub version: Option<String>,
    /// Whether the entry's `stable` field is the boolean `true`.
    pub is_stable: bool,
}

fn field_string(v: &serde_json::Value, key: &str) -> (r: Option<String>) {
    match json_get(v, key) {
        Some(f) => json_as_string(f),
        None => None,
    }
}

fn field_i64(v: &serde_json::Value, key: &str) -> (r: Option<i64>) {
    match json_get(v, key) {
        Some(f) => json_as_i64(f),
        None => None,
    }
}

fn field_is_present_non_null(v: &serde_json::Value, key: &str) -> (r: bool) {
    match json_get(v, key) {
        Some(f) => !json_is_null(f),
        None => false,
    }
}

/// The platform rule of a library record: `rules[0].os.name`.
fn decode_rule_os(v: &serde_json::Value) -> (r: OsRule) {
    let rules = match json_get(v, "rules") {
        Some(r) => r,
        None => {
            return OsRule::NoRule;
        },
    };
    let arr = match json_as_array(rules) {
        Some(a) => a,
        None => {
            return OsRule::NoRule;
        },
    };
    if arr.len() == 0 {
        return OsRule::NoRule;
    }
    let os_val = match json_get(&arr[0], "os") {
        Some(o) => o,
        None => {
            return OsRule::NoRule;
        },
    };
    let name = match json_get(os_val, "name") {
        Some(n) => n,
        None => {
            return OsRule::NoRule;
        },
    };
    if json_is_null(name) {
        return OsRule::NoRule;
    }
    match json_as_string(name) {
        Some(s) => OsRule::Named(s),
        None => OsRule::Unrecognized,
    }
}

/// One library record of a descriptor document.
pub fn decode_library(v: &serde_json::Value) -> (r: LibraryEntry) {
    let mut natives_keys: Vec<String> = Vec::new();
    if let Some(natives) = json_get(v, "natives") {
        if let Some(entries) = json_object_entries(natives) {
            let n = entries.len();
            let mut i: usize = 0;
            while i < n
                invariant
                    i <= n,
                    n == entries@.len(),
                decreases n - i,
            {
                if !json_is_null(&entries[i].1) {
                    natives_keys.push(entries[i].0.clone());
                }
                i = i + 1;
            }
        }
    }
    let downloads = json_get(v, "downloads");
    let artifact_url = match downloads {
        Some(d) => match json_get(d, "artifact") {
            Some(a) => field_string(a, "url"),
            None => None,
        },
        None => None,
    };
    let mut classifiers: Vec<(String, Option<String>)> = Vec::new();
    if let Some(d) = downloads {
        if let Some(cl) = json_get(d, "classifiers") {
            if let Some(entries) = json_object_entries(cl) {
                let n = entries.len();
                let mut i: usize = 0;
                while i < n
                    invariant
                        i <= n,
                        n == entries@.len(),
                    decreases n - i,
                {
                    let url = field_string(&entries[i].1, "url");
                    classifiers.push((entries[i].0.clone(), url));
                    i = i + 1;
                }
            }
        }
    }
    LibraryEntry {
        name: field_string(v, "name"),
        rule_os: decode_rule_os(v),
        natives_keys,
        artifact_url,
        url_override: field_string(v, "url"),
        classifiers,
    }
}

/// The templates of a JVM argument array: its plain string entries only.
/// Object entries there carry platform rules the launcher does not evaluate,
/// so they are skipped whole.
fn decode_jvm_array(arr: &Vec<serde_json::Value>) -> (r: Vec<String>) {
    let mut out: Vec<String> = Vec::new();
    let n = arr.len();
    let mut i: usize = 0;
    while i < n
        invariant
            i <= n,
            n == arr@.len(),
        decreases n - i,
    {
        if json_is_string(&arr[i]) {
            if let Some(s) = json_as_string(&arr[i]) {
                out.push(s);
            }
        }
        i = i + 1;
    }
    out
}

/// The templates of a game argument array: string entries, and the string
/// `value` of object entries.
fn decode_arg_array(arr: &Vec<serde_json::Value>) -> (r: Vec<String>) {
    let mut out: Vec<String> = Vec::new();
    let n = arr.len();
    let mut i: usize = 0;
    while i < n
        invariant
            i <= n,
            n == arr@.len(),
        decreases n - i,
    {
        if json_is_string(&arr[i]) {
            if let Some(s) = json_as_string(&arr[i]) {
                out.push(s);
            }
        } else if let Some(value) = json_get(&arr[i], "value") {
            if json_is_string(value) {
                if let Some(s) = json_as_string(value) {
                    out.push(s);
                }
            }
        }
        i = i + 1;
    }
    out
}

/// The typed form of a whole version descriptor document.
pub fn decode_descriptor(v: &serde_json::Value) -> (r: VersionDescriptor) {
    let mut libraries: Vec<LibraryEntry> = Vec::new();
    if let Some(libs_val) = json_get(v, "libraries") {
        if let Some(arr) = json_as_array(libs_val) {
            let n = arr.len();
            let mut i: usize = 0;
            while i < n
                invariant
                    i <= n,
                    n == arr@.len(),
                decreases n - i,
            {
                libraries.push(decode_library(&arr[i]));
                i = i + 1;
            }
        }
    }
    let arguments = json_get(v, "arguments");
    let jvm_args = match arguments {
        Some(a) => match json_get(a, "jvm") {
            Some(j) => match json_as_array(j) {
                Some(arr) => Some(decode_jvm_array(arr)),
                None => None,
            },
            None => None,
        },
        None => None,
    };
    let game_args = match arguments {
        Some(a) => match json_get(a, "game") {
            Some(g) => match json_as_array(g) {
                Some(arr) => Some(decode_arg_array(arr)),
                None => None,
            },
            None => None,
        },
        None => None,
    };
    let java = json_get(v, "javaVersion");
    let java_major = match java {
        Some(j) => field_i64(j, "majorVersion"),
        None => None,
    };
    let java_version_alt = match java {
        Some(j) => field_i64(j, "Version"),
        None => None,
    };
    let asset_index_url = match json_get(v, "assetIndex") {
        Some(a) => field_string(a, "url"),
        None => None,
    };
    let client_url = match json_get(v, "downloads") {
        Some(d) => match json_get(d, "client") {
            Some(c) => field_string(c, "url"),
            None => None,
        },
        None => None,
    };
    VersionDescriptor {
        id: field_string(v, "id"),
        main_class: field_string(v, "mainClass"),
        assets: field_string(v, "assets"),
        asset_index_url,
        client_url,
        inherits_from: field_string(v, "inheritsFrom"),
        java_major,
        java_version_alt,
        libraries,
        jvm_args,
        game_args,
        minecraft_arguments: field_string(v, "minecraftArguments"),
    }
}

/// The typed form of an asset index document.
pub fn decode_asset_index(v: &serde_json::Value) -> (r: AssetIndex) {
    let map_to_resources = field_is_present_non_null(v, "map_to_resources");
    let mut objects: Vec<(String, Option<String>)> = Vec::new();
    if let Some(objs) = json_get(v, "objects") {
        if let Some(entries) = json_object_entries(objs) {
            let n = entries.len();
            let mut i: usize = 0;
            while i < n
                invariant
                    i <= n,
                    n == entries@.len(),
                decreases n - i,
            {
                let hash = field_string(&entries[i].1, "hash");
                objects.push((entries[i].0.clone(), hash));
                i = i + 1;
            }
        }
    }
    AssetIndex { map_to_resources, objects }
}

/// The entries of the remote version index (`versions` array).
pub fn decode_version_index(v: &serde_json::Value) -> (r: Vec<VersionIndexEntry>) {
    let mut out: Vec<VersionIndexEntry> = Vec::new();
    if let Some(versions) = json_get(v, "versions") {
        if let Some(arr) = json_as_array(versions) {
            let n = arr.len();
            let mut i: usize = 0;
            while i < n
                invariant
                    i <= n,
                    n == arr@.len(),
                decreases n - i,
            {
                let is_release = match field_string(&arr[i], "type") {
                    Some(t) => crate::strutil::str_eq(t.as_str(), "release"),
                    None => false,
                };
                out.push(
                    VersionIndexEntry {
                        id: field_string(&arr[i], "id"),
                        url: field_string(&arr[i], "url"),
                        is_release,
                    },
                );
                i = i + 1;
            }
        }
    }
    out
}

/// The entries of the mod-loader game-version index (a top-level array).
pub fn decode_loader_index(v: &serde_json::Value) -> (r: Vec<LoaderIndexEntry>) {
    let mut out: Vec<LoaderIndexEntry> = Vec::new();
    if let Some(arr) = json_as_array(v) {
        let n = arr.len();
        let mut i: usize = 0;
        while i < n
            invariant
                i <= n,
                n == arr@.len(),
            decreases n - i,
        {
            let is_stable = match json_get(&arr[i], "stable") {
                Some(s) => match json_as_bool(s) {
                    Some(b) => b,
                    None => false,
                },
                None => false,
            };
            out.push(
                LoaderIndexEntry { version: field_string(&arr[i], "version"), is_stable },
            );
            i = i + 1;
        }
    }
    out
}

/// The ids the installable-version list shows from the base index: every
/// named entry, or only the full releases.
pub open spec fn base_versions_spec(entries: Seq<VersionIndexEntry>, show_all: bool) -> Seq<
    Seq<char>,
>
    decreases entries.len(),
{
    if entries.len() == 0 {
        Seq::empty()
    } else {
        let rest = base_versions_spec(entries.drop_last(), show_all);
        match entries.last().id {
            Option::Some(id) => if show_all || entries.last().is_release {
                rest.push(id@)
            } else {
                rest
            },
            Option::None => rest,
        }
    }
}

/// The ids the installable-version list shows from the base index.
pub fn filter_base_versions(entries: &Vec<VersionIndexEntry>, show_all: bool) -> (r: Vec<String>)
    ensures
        crate::strutil::str_views(r@) == base_versions_spec(entries@, show_all),
{
    let n = entries.len();
    let mut out: Vec<String> = Vec::new();
    let mut i: usize = 0;
    proof {
        assert(entries@.take(0) =~= Seq::<VersionIndexEntry>::empty());
        assert(crate::strutil::str_views(out@) =~= base_versions_spec(entries@.take(0), show_all));
    }
    while i < n
        invariant
            i <= n,
            n == entries@.len(),
            crate::strutil::str_views(out@) == base_versions_spec(
                entries@.take(i as int),
                show_all,
            ),
        decreases n - i,
    {
        proof {
            assert(entries@.take(i + 1).drop_last() =~= entries@.take(i as int));
            assert(entries@.take(i + 1).last() == entries@[i as int]);
        }
        let ghost out0 = out@;
        if let Some(id) = &entries[i].id {
            if show_all || entries[i].is_release {
                out.push(id.clone());
                proof {
                    assert(crate::strutil::str_views(out@) =~= crate::strutil::str_views(
                        out0,
                    ).push(entries@[i as int].id->0@));
                }
            }
        }
        i = i + 1;
    }
    proof {
        assert(entries@.take(n as int) =~= entries@);
    }
    out
}

/// The versions the installable-version list shows from the loader index:
/// every named entry, or only the stable ones.
pub open spec fn loader_versions_spec(entries: Seq<LoaderIndexEntry>, show_all: bool) -> Seq<
    Seq<char>,
>
    decreases entries.len(),
{
    if entries.len() == 0 {
        Seq::empty()
    } else {
        let rest = loader_versions_spec(entries.drop_last(), show_all);
        match entries.last().version {
            Option::Some(v) => if show_all || entries.last().is_stable {
                rest.push(v@)
            } else {
                rest
            },
            Option::None => rest,
        }
    }
}

/// The versions the installable-version list shows from the loader index.
pub fn filter_loader_versions(entries: &Vec<LoaderIndexEntry>, show_all: bool) -> (r: Vec<String>)
    ensures
        crate::strutil::str_views(r@) == loader_versions_spec(entries@, show_all),
{
    let n = entries.len();
    let mut out: Vec<String> = Vec::new();
    let mut i: usize = 0;
    proof {
        assert(entries@.take(0) =~= Seq::<LoaderIndexEntry>::empty());
        assert(crate::strutil::str_views(out@) =~= loader_versions_spec(
            entries@.take(0),
            show_all,
        ));
    }
    while i < n
        invariant
            i <= n,
            n == entries@.len(),
            crate::strutil::str_views(out@) == loader_versions_spec(
                entries@.take(i as int),
                show_all,
            ),
        decreases n - i,
    {
        proof {
            assert(entries@.take(i + 1).drop_last() =~= entries@.take(i as int));
            assert(entries@.take(i + 1).last() == entries@[i as int]);
        }
        let ghost out0 = out@;
        if let Some(v) = &entries[i].version {
            if show_all || entries[i].is_stable {
                out.push(v.clone());
                proof {
                    assert(crate::strutil::str_views(out@) =~= crate::strutil::str_views(
                        out0,
                    ).push(entries@[i as int].version->0@));
                }
            }
        }
        i = i + 1;
    }
    proof {
        assert(entries@.take(n as int) =~= entries@);
    }
    out
}

/// What the version index holds under `id`: the `url` field of the first
/// entry whose `id` matches, or nothing when no entry bears the id.
pub open spec fn version_url_spec(entries: Seq<VersionIndexEntry>, id: Seq<char>) -> Option<
    Option<String>,
>
    decreases entries.len(),
{
    if entries.len() == 0 {
        Option::None
    } else if entries[0].id is Some && entries[0].id->0@ == id {
        Option::Some(entries[0].url)
    } else {
        version_url_spec(entries.skip(1), id)
    }
}

/// The document URL of the version index entry named `id`: the `url` of the
/// first entry whose `id` matches. Fails exactly when no entry bears the
/// requested id, or the first bearer carries no url.
pub fn find_version_url(entries: &Vec<VersionIndexEntry>, id: &str) -> (r: Option<String>)
    ensures
        match r {
            Option::Some(u) => version_url_spec(entries@, id@) is Some && version_url_spec(
                entries@,
                id@,
            )->0 is Some && u@ == version_url_spec(entries@, id@)->0->0@,
            Option::None => version_url_spec(entries@, id@) is None || version_url_spec(
                entries@,
                id@,
            )->0 is None,
        },
{
    let n = entries.len();
    let mut i: usize = 0;
    proof {
        assert(entries@.skip(0) =~= entries@);
    }
    while i < n
        invariant
            i <= n,
            n == entries@.len(),
            version_url_spec(entries@, id@) == version_url_spec(entries@.skip(i as int), id@),
        decreases n - i,
    {
        let ghost rest = entries@.skip(i as int);
        proof {
            assert(rest[0] == entries@[i as int]);
            assert(rest.skip(1) =~= entries@.skip(i + 1));
        }
        if let Some(eid) = &entries[i].id {
            if crate::strutil::str_eq(eid.as_str(), id) {
                return match &entries[i].url {
                    Some(u) => Some(u.clone()),
                    None => None,
                };
            }
        }
        i = i + 1;
    }
    proof {
        assert(entries@.skip(n as int) =~= Seq::<VersionIndexEntry>::empty());
    }
    None
}

/// The first loader version of the index: the launcher treats the head of the
/// list as the latest stable loader.
pub fn first_loader_version(entries: &Vec<LoaderIndexEntry>) -> (r: Option<String>)
    ensures
        match r {
            Option::Some(v) => entries@.len() > 0 && entries@[0].version is Some && v@
                == entries@[0].version->0@,
            Option::None => entries@.len() == 0 || entries@[0].version is None,
        },
{
    if entries.len() == 0 {
        return None;
    }
    match &entries[0].version {
        Some(v) => Some(v.clone()),
        None => None,
    }
}

} // verus!
