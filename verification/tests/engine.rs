use minelander::downloader::{
    archive_file_name, download_list_built, engine_failed, file_fetched, is_natives_staging,
    java_chunk_written, java_download_done, java_download_started, java_extracted,
    java_folder_name, java_url, natives_dir_of, next_action, parent_dir, queue_drained,
    update_chunk_written, update_done, update_started, Action, Download, DownloadList, Java,
    Progress, State,
};
use minelander::launcher::select_missing;
use minelander::Os;

fn task(path: &str) -> Download {
    Download { path: path.to_string(), url: String::from("https://example.invalid/f") }
}

#[test]
fn staging_jar_is_recognized_and_unpacked_next_to_itself() {
    // The staging scenario: a task whose path holds the staging filename is
    // fetched, unpacked into the sibling natives directory, and deleted.
    let list = DownloadList { download_list: vec![task("/mc/versions/1.6.4/natives/natives.jar")] };
    let state = State::Downloading(list);
    let action = next_action(&state, &String::from("/mc"), Os::Linux);
    match action {
        Action::FetchFile { download, extract_natives, natives_dir } => {
            assert_eq!(download.path, "/mc/versions/1.6.4/natives/natives.jar");
            assert!(extract_natives);
            assert_eq!(natives_dir, "/mc/versions/1.6.4/natives");
        },
        _ => panic!("expected a file fetch"),
    }
    assert!(is_natives_staging("/mc/versions/1.6.4/natives/natives.jar"));
    assert!(!is_natives_staging("/mc/versions/1.6.4/1.6.4.jar"));
    assert_eq!(
        natives_dir_of("/mc/versions/1.6.4/natives/natives.jar"),
        "/mc/versions/1.6.4/natives"
    );
}

#[test]
fn engine_never_skips_a_queued_task() {
    // The engine has no notion of what is already on disk: the head of a
    // non-empty queue is always fetched; skipping existing files is the
    // planner's filtering stage.
    let list = DownloadList { download_list: vec![task("/mc/already-present.jar")] };
    let state = State::Downloading(list);
    match next_action(&state, &String::from("/mc"), Os::Linux) {
        Action::FetchFile { download, .. } => {
            assert_eq!(download.path, "/mc/already-present.jar")
        },
        _ => panic!("expected a file fetch"),
    }
}

#[test]
fn fetched_file_leaves_the_queue_and_reports_the_rest() {
    let list = DownloadList { download_list: vec![task("/mc/a"), task("/mc/b")] };
    let (progress, state) = file_fetched(list, false);
    assert_eq!(progress, Progress::Downloaded(1));
    match state {
        State::Downloading(rest) => {
            assert_eq!(rest.download_list.len(), 1);
            assert_eq!(rest.download_list[0].path, "/mc/b");
        },
        _ => panic!("expected to keep downloading"),
    }
}

#[test]
fn drained_queue_finishes_and_suspends() {
    let (progress, state) = queue_drained(false);
    assert_eq!(progress, Progress::Finished);
    assert!(matches!(state, State::Idle));
    let (progress, state) = queue_drained(true);
    assert_eq!(progress, Progress::MissingFilesDownloadFinished);
    assert!(matches!(state, State::Idle));
}

#[test]
fn list_built_reports_count() {
    let (progress, state) = download_list_built(vec![task("/mc/a"), task("/mc/b")]);
    assert_eq!(progress, Progress::GotDownloadList(2));
    assert!(matches!(state, State::Downloading(_)));
}

#[test]
fn failure_reports_and_suspends() {
    let (progress, state) = engine_failed(String::from("connection reset"));
    assert_eq!(progress, Progress::Errored(String::from("connection reset")));
    assert!(matches!(state, State::Idle));
}

#[test]
fn runtime_download_reports_mebibytes_and_percent() {
    let (progress, state) = java_download_started(String::from("/mc/minelander_java"), Java::J17, 41943040);
    assert_eq!(progress, Progress::StartedJavaDownload(40));
    let (downloaded, total, folder, java) = match state {
        State::DownloadingJava { downloaded, total, folder_to_store, java } => {
            (downloaded, total, folder_to_store, java)
        },
        _ => panic!("expected a runtime download"),
    };
    assert_eq!((downloaded, total), (0, 41943040));
    let (progress, _state) = java_chunk_written(downloaded, total, folder, java, 10485760);
    assert_eq!(progress, Progress::JavaDownloadProgressed(10, 25));
}

#[test]
fn runtime_flow_ends_in_extraction() {
    let (progress, state) = java_download_done(String::from("/mc/minelander_java"), Java::J21);
    assert_eq!(progress, Progress::JavaDownloadFinished);
    let action = next_action(&state, &String::from("/mc"), Os::Linux);
    match action {
        Action::ExtractJavaArchive { archive_path, folder, final_dir } => {
            assert_eq!(archive_path, "/mc/minelander_java/compressed.tar.gz");
            assert_eq!(folder, "/mc/minelander_java");
            assert_eq!(final_dir, "/mc/minelander_java/java21");
        },
        _ => panic!("expected extraction"),
    }
    let (progress, state) = java_extracted();
    assert_eq!(progress, Progress::JavaExtracted);
    assert!(matches!(state, State::Idle));
}

#[test]
fn runtime_urls_match_platform_and_generation() {
    assert!(java_url(&Java::J8, Os::Linux).ends_with(".tar.gz"));
    assert!(java_url(&Java::J8, Os::Windows).ends_with(".zip"));
    assert!(java_url(&Java::J21, Os::Linux).contains("temurin21"));
    assert_eq!(java_folder_name(&Java::J8), "java8");
    assert_eq!(archive_file_name(Os::Windows), "compressed.zip");
}

#[test]
fn self_update_flow_reports_chunked_progress() {
    let (progress, state) = update_started(3145728);
    assert_eq!(progress, Progress::UpdateStarted(3));
    let (downloaded, total) = match state {
        State::DownloadingUpdate { downloaded, total } => (downloaded, total),
        _ => panic!("expected an update download"),
    };
    let (progress, _state) = update_chunk_written(downloaded, total, 1048576);
    assert_eq!(progress, Progress::UpdateProgressed(1, 33, 3));
    let (progress, state) = update_done();
    assert_eq!(progress, Progress::UpdateFinished);
    assert!(matches!(state, State::Idle));
}

#[test]
fn idle_suspends() {
    match next_action(&State::Idle, &String::from("/mc"), Os::Linux) {
        Action::Suspend => {},
        _ => panic!("expected to stay suspended"),
    }
}

#[test]
fn parent_directory_of_a_task_path() {
    assert_eq!(parent_dir("/mc/libraries/a/b.jar"), Some(String::from("/mc/libraries/a")));
    assert_eq!(parent_dir("b.jar"), None);
}

#[test]
fn repair_selection_honours_the_natives_rule() {
    let cands = vec![
        task("/mc/versions/1.6.4/natives/natives.jar"),
        task("/mc/libraries/a/b.jar"),
    ];
    // Natives staging absent, but the natives directory is already
    // populated: the staging jar is not refetched.
    let kept = select_missing(cands.clone(), &vec![false, false], false);
    assert_eq!(kept.len(), 1);
    assert_eq!(kept[0].path, "/mc/libraries/a/b.jar");
    // With an empty natives directory the staging jar is fetched again.
    let kept = select_missing(cands, &vec![false, false], true);
    assert_eq!(kept.len(), 2);
}
