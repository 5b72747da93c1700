use rs_manifest_patcher::download::{Action, Download, DownloadError, Event, Phase, SkipReason};
use rs_manifest_patcher::manifest::{Manifest, PatchFile, Provider};
use rs_manifest_patcher::transaction::{FileOperation, LocalFile, Status, Transaction};

const HELLO: &[u8] = b"Hello, world!";
const HELLO_MD5: &str = "6cd3556deb0da54bca060b4c39479839";

fn file(path: &str, size: i64, urls: Vec<(Provider, &str)>) -> PatchFile {
    PatchFile {
        path: path.to_string(),
        hash: HELLO_MD5.to_string(),
        size,
        custom: false,
        urls: urls.into_iter().map(|(provider, url)| (provider, url.to_string())).collect(),
    }
}

fn all_missing(files: Vec<PatchFile>) -> Transaction {
    let locals = files.iter().map(|_| LocalFile::Absent).collect();
    let manifest =
        Manifest { version: "1.0".to_string(), uid: "uid-1".to_string(), files, removals: None };
    Transaction::new(manifest, locals, "/base".to_string())
}

fn expect_directory(action: Action, expected: &str) {
    match action {
        Action::CreateDirectory { path } => assert_eq!(path, expected),
        other => panic!("expected a directory, got {other:?}"),
    }
}

fn expect_request(action: Action, expected_url: &str, expected_path: &str) {
    match action {
        Action::Request { url, path } => {
            assert_eq!(url, expected_url);
            assert_eq!(path, expected_path);
        }
        other => panic!("expected a request, got {other:?}"),
    }
}

fn expect_read(action: Action) {
    assert!(matches!(action, Action::ReadChunk), "expected a read");
}

#[test]
fn one_missing_file_is_downloaded_and_then_present() {
    let expected = file("files/A.bin", 13, vec![(Provider::NoCdn, "http://origin/files/A.bin")]);
    let manifest = || Manifest {
        version: "1.0".to_string(),
        uid: "uid-1".to_string(),
        files: vec![expected.clone()],
        removals: None,
    };
    let transaction = Transaction::new(manifest(), vec![LocalFile::Absent], "/base".to_string());
    assert_eq!(transaction.generate_report().missing_files.len(), 1);
    assert!(transaction.has_pending_operations());

    let mut written: Vec<u8> = Vec::new();
    let mut download = Download::new(&transaction, Provider::Cloudflare);
    expect_directory(download.step(Event::Begin), "files/A.bin");
    expect_request(
        download.step(Event::DirectoryReady),
        "http://origin/files/A.bin",
        "files/A.bin",
    );
    expect_read(download.step(Event::ResponseReady));
    for chunk in [&HELLO[..5], &HELLO[5..]] {
        written.extend_from_slice(chunk);
        let action =
            download.step(Event::Chunk { len: chunk.len() as u64, elapsed_nanos: 1_000_000 });
        assert!(matches!(action, Action::Report(_)));
        expect_read(download.step(Event::SinkAccepted));
    }
    assert!(matches!(download.step(Event::BodyEnded), Action::Finish(Ok(()))));
    assert!(download.is_over());
    assert_eq!(download.total_downloaded(), 13);

    let again =
        Transaction::new(manifest(), vec![LocalFile::from_contents(&written)], "/base".to_string());
    assert_eq!(again.up_to_date().len(), 1);
    assert_eq!(again.up_to_date()[0].status(), Status::Present);
    assert!(!again.has_pending_operations());
    assert!(again.generate_report().missing_files.is_empty());
}

#[test]
fn file_without_address_is_passed_over_and_the_batch_goes_on() {
    let transaction = all_missing(vec![
        file("a.bin", 10, vec![(Provider::Cloudflare, "http://cf/a.bin")]),
        file("b.bin", 20, vec![(Provider::DigitalOcean, "http://do/b.bin")]),
    ]);
    let mut download = Download::new(&transaction, Provider::DigitalOcean);
    expect_directory(download.step(Event::Begin), "a.bin");
    match download.step(Event::DirectoryReady) {
        Action::Skip { reason, path, url, detail } => {
            assert_eq!(reason, SkipReason::NoUrl);
            assert_eq!(path, "a.bin");
            assert_eq!(url, "");
            assert_eq!(detail, "digitalocean");
        }
        other => panic!("expected a skip, got {other:?}"),
    }
    assert_eq!(download.phase(), Phase::Skipped);
    expect_directory(download.step(Event::Noted), "b.bin");
    expect_request(download.step(Event::DirectoryReady), "http://do/b.bin", "b.bin");
    expect_read(download.step(Event::ResponseReady));
    assert!(matches!(download.step(Event::BodyEnded), Action::Finish(Ok(()))));
}

#[test]
fn refusing_sink_ends_the_batch_at_once() {
    let transaction = all_missing(vec![
        file("a.bin", 10, vec![(Provider::NoCdn, "http://origin/a.bin")]),
        file("b.bin", 20, vec![(Provider::NoCdn, "http://origin/b.bin")]),
    ]);
    let mut download = Download::new(&transaction, Provider::NoCdn);
    expect_directory(download.step(Event::Begin), "a.bin");
    expect_request(download.step(Event::DirectoryReady), "http://origin/a.bin", "a.bin");
    expect_read(download.step(Event::ResponseReady));
    assert!(matches!(
        download.step(Event::Chunk { len: 4, elapsed_nanos: 1000 }),
        Action::Report(_)
    ));
    expect_read(download.step(Event::SinkAccepted));
    assert!(matches!(
        download.step(Event::Chunk { len: 4, elapsed_nanos: 2000 }),
        Action::Report(_)
    ));
    match download.step(Event::SinkFailed("cancelled by user".to_string())) {
        Action::Finish(Err(DownloadError::Sink(message))) => {
            assert_eq!(message, "cancelled by user")
        }
        other => panic!("expected the end, got {other:?}"),
    }
    assert!(download.is_over());
    assert_eq!(download.total_downloaded(), 8);
    for event in [
        Event::Chunk { len: 2, elapsed_nanos: 3000 },
        Event::SinkAccepted,
        Event::BodyEnded,
        Event::Begin,
        Event::Noted,
    ] {
        assert!(matches!(download.step(event), Action::Finish(Err(DownloadError::OutOfTurn))));
        assert!(download.is_over());
    }
    assert_eq!(download.total_downloaded(), 8);
}

#[test]
fn nothing_pending_finishes_at_once() {
    let transaction = all_missing(vec![]);
    let mut download = Download::new(&transaction, Provider::NoCdn);
    assert_eq!(download.phase(), Phase::Ready);
    assert!(matches!(download.step(Event::Begin), Action::Finish(Ok(()))));
    assert!(download.is_over());
}

#[test]
fn present_files_are_not_downloaded() {
    let files = vec![
        file("present.bin", 13, vec![(Provider::NoCdn, "http://origin/present.bin")]),
        file("missing.bin", 13, vec![(Provider::NoCdn, "http://origin/missing.bin")]),
    ];
    let manifest =
        Manifest { version: "1".to_string(), uid: "u".to_string(), files, removals: None };
    let locals = vec![LocalFile::from_contents(HELLO), LocalFile::Absent];
    let transaction = Transaction::new(manifest, locals, "/base".to_string());
    let mut download = Download::new(&transaction, Provider::NoCdn);
    expect_directory(download.step(Event::Begin), "missing.bin");
    expect_request(download.step(Event::DirectoryReady), "http://origin/missing.bin", "missing.bin");
    expect_read(download.step(Event::ResponseReady));
    assert!(matches!(download.step(Event::BodyEnded), Action::Finish(Ok(()))));
}

#[test]
fn progress_after_a_chunk() {
    let transaction = all_missing(vec![
        file("dir/sub/a.bin", 2000, vec![(Provider::NoCdn, "http://origin/a.bin")]),
        file("b.bin", 1000, vec![(Provider::NoCdn, "http://origin/b.bin")]),
    ]);
    let mut download = Download::new(&transaction, Provider::NoCdn);
    download.step(Event::Begin);
    download.step(Event::DirectoryReady);
    download.step(Event::ResponseReady);
    match download.step(Event::Chunk { len: 500, elapsed_nanos: 500_000_000 }) {
        Action::Report(progress) => {
            assert_eq!(progress.current, 500);
            assert_eq!(progress.file_index, 1);
            assert_eq!(progress.total_files, 2);
            assert_eq!(progress.speed, 1000);
            assert_eq!(progress.file_size, 2000);
            assert_eq!(progress.elapsed_nanos, 500_000_000);
            assert_eq!(progress.filename, "a.bin");
            assert_eq!(progress.total_size_downloaded, 500);
            assert_eq!(progress.total_amount_left, 2500);
            assert_eq!(progress.expected_time_left, 2);
            assert_eq!(progress.total_download_size, 3000);
        }
        other => panic!("expected a progress, got {other:?}"),
    }
    assert_eq!(download.phase(), Phase::Sink);
}

#[test]
fn counts_run_on_over_chunks_and_files() {
    let transaction = all_missing(vec![
        file("a.bin", 1000, vec![(Provider::NoCdn, "http://origin/a.bin")]),
        file("b.bin", 1000, vec![(Provider::NoCdn, "http://origin/b.bin")]),
    ]);
    let mut download = Download::new(&transaction, Provider::NoCdn);
    download.step(Event::Begin);
    download.step(Event::DirectoryReady);
    download.step(Event::ResponseReady);
    let mut seen: Vec<(usize, u64, u64, u64)> = Vec::new();
    let mut note = |action: Action| match action {
        Action::Report(p) => {
            seen.push((p.file_index, p.current, p.total_size_downloaded, p.total_amount_left))
        }
        other => panic!("expected a progress, got {other:?}"),
    };
    note(download.step(Event::Chunk { len: 600, elapsed_nanos: 1 }));
    download.step(Event::SinkAccepted);
    note(download.step(Event::Chunk { len: 400, elapsed_nanos: 2 }));
    download.step(Event::SinkAccepted);
    expect_directory(download.step(Event::BodyEnded), "b.bin");
    download.step(Event::DirectoryReady);
    download.step(Event::ResponseReady);
    note(download.step(Event::Chunk { len: 700, elapsed_nanos: 1 }));
    download.step(Event::SinkAccepted);
    note(download.step(Event::Chunk { len: 700, elapsed_nanos: 2 }));
    assert_eq!(
        seen,
        vec![(1, 600, 600, 1400), (1, 1000, 1000, 1000), (2, 700, 1700, 300), (2, 1400, 2400, 0)]
    );
}

#[test]
fn speed_and_estimate() {
    let transaction = all_missing(vec![file(
        "a.bin",
        1_000_000_000,
        vec![(Provider::NoCdn, "http://origin/a.bin")],
    )]);
    let report = |len: u64, elapsed_nanos: u64| -> (u64, u64) {
        let mut download = Download::new(&transaction, Provider::NoCdn);
        download.step(Event::Begin);
        download.step(Event::DirectoryReady);
        download.step(Event::ResponseReady);
        match download.step(Event::Chunk { len, elapsed_nanos }) {
            Action::Report(p) => (p.speed, p.expected_time_left),
            other => panic!("expected a progress, got {other:?}"),
        }
    };
    // 1 MB in one second: 999 MB left take 999 seconds.
    assert_eq!(report(1_000_000, 1_000_000_000), (1_000_000, 999));
    // No time has passed: no speed, no estimate.
    assert_eq!(report(1_000_000, 0), (0, 0));
    // Nothing has arrived: no speed, no estimate.
    assert_eq!(report(0, 1_000_000_000), (0, 0));
    // One byte in a second: the estimate is capped at a day.
    assert_eq!(report(1, 1_000_000_000), (1, 86400));
    // Half a byte per second shows as no speed, and the estimate is capped.
    assert_eq!(report(1, 2_000_000_000), (0, 86400));
    // Everything at once: nothing is left.
    assert_eq!(report(1_000_000_000, 1_000_000_000), (1_000_000_000, 0));
    // 10 kB in a hundredth of a second.
    assert_eq!(report(10_000, 10_000_000), (1_000_000, 999));
    // A speed beyond the largest number is capped.
    assert_eq!(report(u64::MAX, 1), (u64::MAX, 0));
}

#[test]
fn more_bytes_than_expected_leave_nothing() {
    let transaction =
        all_missing(vec![file("a.bin", 10, vec![(Provider::NoCdn, "http://origin/a.bin")])]);
    let mut download = Download::new(&transaction, Provider::NoCdn);
    download.step(Event::Begin);
    download.step(Event::DirectoryReady);
    download.step(Event::ResponseReady);
    match download.step(Event::Chunk { len: 25, elapsed_nanos: 1_000_000_000 }) {
        Action::Report(p) => {
            assert_eq!(p.current, 25);
            assert_eq!(p.total_size_downloaded, 25);
            assert_eq!(p.total_amount_left, 0);
            assert_eq!(p.expected_time_left, 0);
        }
        other => panic!("expected a progress, got {other:?}"),
    }
}

#[test]
fn counts_stop_at_the_largest_number() {
    let transaction =
        all_missing(vec![file("a.bin", 10, vec![(Provider::NoCdn, "http://origin/a.bin")])]);
    let mut download = Download::new(&transaction, Provider::NoCdn);
    download.step(Event::Begin);
    download.step(Event::DirectoryReady);
    download.step(Event::ResponseReady);
    download.step(Event::Chunk { len: u64::MAX - 1, elapsed_nanos: 1 });
    download.step(Event::SinkAccepted);
    match download.step(Event::Chunk { len: 5, elapsed_nanos: 2 }) {
        Action::Report(p) => {
            assert_eq!(p.current, u64::MAX);
            assert_eq!(p.total_size_downloaded, u64::MAX);
        }
        other => panic!("expected a progress, got {other:?}"),
    }
}

#[test]
fn refused_request_passes_the_file_over() {
    let transaction = all_missing(vec![
        file("a.bin", 10, vec![(Provider::NoCdn, "http://origin/a.bin")]),
        file("b.bin", 10, vec![(Provider::NoCdn, "http://origin/b.bin")]),
    ]);
    let mut download = Download::new(&transaction, Provider::NoCdn);
    download.step(Event::Begin);
    download.step(Event::DirectoryReady);
    match download.step(Event::ResponseRefused("404 Not Found".to_string())) {
        Action::Skip { reason, path, url, detail } => {
            assert_eq!(reason, SkipReason::Refused);
            assert_eq!(path, "a.bin");
            assert_eq!(url, "http://origin/a.bin");
            assert_eq!(detail, "404 Not Found");
        }
        other => panic!("expected a skip, got {other:?}"),
    }
    expect_directory(download.step(Event::Noted), "b.bin");
}

#[test]
fn failed_request_passes_the_file_over() {
    let transaction = all_missing(vec![
        file("a.bin", 10, vec![(Provider::NoCdn, "http://origin/a.bin")]),
        file("b.bin", 10, vec![(Provider::NoCdn, "http://origin/b.bin")]),
    ]);
    let mut download = Download::new(&transaction, Provider::NoCdn);
    download.step(Event::Begin);
    download.step(Event::DirectoryReady);
    match download.step(Event::RequestFailed("connection refused".to_string())) {
        Action::Skip { reason, detail, .. } => {
            assert_eq!(reason, SkipReason::Unreachable);
            assert_eq!(detail, "connection refused");
        }
        other => panic!("expected a skip, got {other:?}"),
    }
    expect_directory(download.step(Event::Noted), "b.bin");
}

#[test]
fn broken_body_passes_the_file_over() {
    let transaction = all_missing(vec![
        file("a.bin", 10, vec![(Provider::NoCdn, "http://origin/a.bin")]),
        file("b.bin", 10, vec![(Provider::NoCdn, "http://origin/b.bin")]),
    ]);
    let mut download = Download::new(&transaction, Provider::NoCdn);
    download.step(Event::Begin);
    download.step(Event::DirectoryReady);
    download.step(Event::ResponseReady);
    download.step(Event::Chunk { len: 4, elapsed_nanos: 10 });
    download.step(Event::SinkAccepted);
    match download.step(Event::ChunkFailed("connection reset".to_string())) {
        Action::Skip { reason, path, detail, .. } => {
            assert_eq!(reason, SkipReason::Interrupted);
            assert_eq!(path, "a.bin");
            assert_eq!(detail, "connection reset");
        }
        other => panic!("expected a skip, got {other:?}"),
    }
    expect_directory(download.step(Event::Noted), "b.bin");
    download.step(Event::DirectoryReady);
    download.step(Event::ResponseReady);
    match download.step(Event::Chunk { len: 3, elapsed_nanos: 10 }) {
        Action::Report(p) => {
            assert_eq!(p.file_index, 2);
            assert_eq!(p.current, 3);
            assert_eq!(p.total_size_downloaded, 7);
        }
        other => panic!("expected a progress, got {other:?}"),
    }
}

#[test]
fn directory_that_cannot_be_created_ends_the_batch() {
    let transaction =
        all_missing(vec![file("a.bin", 10, vec![(Provider::NoCdn, "http://origin/a.bin")])]);
    let mut download = Download::new(&transaction, Provider::NoCdn);
    download.step(Event::Begin);
    match download.step(Event::DirectoryFailed("permission denied".to_string())) {
        Action::Finish(Err(DownloadError::Directory(message))) => {
            assert_eq!(message, "permission denied")
        }
        other => panic!("expected the end, got {other:?}"),
    }
    assert!(download.is_over());
}

#[test]
fn destination_that_cannot_be_created_ends_the_batch() {
    let transaction =
        all_missing(vec![file("a.bin", 10, vec![(Provider::NoCdn, "http://origin/a.bin")])]);
    let mut download = Download::new(&transaction, Provider::NoCdn);
    download.step(Event::Begin);
    download.step(Event::DirectoryReady);
    match download.step(Event::FileFailed("read-only file system".to_string())) {
        Action::Finish(Err(DownloadError::File(message))) => {
            assert_eq!(message, "read-only file system")
        }
        other => panic!("expected the end, got {other:?}"),
    }
}

#[test]
fn chunk_that_cannot_be_written_ends_the_batch() {
    let transaction =
        all_missing(vec![file("a.bin", 10, vec![(Provider::NoCdn, "http://origin/a.bin")])]);
    let mut download = Download::new(&transaction, Provider::NoCdn);
    download.step(Event::Begin);
    download.step(Event::DirectoryReady);
    download.step(Event::ResponseReady);
    match download.step(Event::WriteFailed("disk full".to_string())) {
        Action::Finish(Err(DownloadError::Write(message))) => assert_eq!(message, "disk full"),
        other => panic!("expected the end, got {other:?}"),
    }
}

#[test]
fn event_out_of_turn_ends_the_batch() {
    let transaction =
        all_missing(vec![file("a.bin", 10, vec![(Provider::NoCdn, "http://origin/a.bin")])]);
    let mut download = Download::new(&transaction, Provider::NoCdn);
    assert!(matches!(
        download.step(Event::DirectoryReady),
        Action::Finish(Err(DownloadError::OutOfTurn))
    ));
    assert!(download.is_over());
    let mut download = Download::new(&transaction, Provider::NoCdn);
    download.step(Event::Begin);
    assert!(matches!(
        download.step(Event::Chunk { len: 1, elapsed_nanos: 1 }),
        Action::Finish(Err(DownloadError::OutOfTurn))
    ));
}

#[test]
fn file_name_is_what_follows_the_last_slash() {
    let name_of = |path: &str| -> String {
        let transaction =
            all_missing(vec![file(path, 10, vec![(Provider::NoCdn, "http://origin/x")])]);
        let mut download = Download::new(&transaction, Provider::NoCdn);
        download.step(Event::Begin);
        download.step(Event::DirectoryReady);
        download.step(Event::ResponseReady);
        match download.step(Event::Chunk { len: 1, elapsed_nanos: 1 }) {
            Action::Report(p) => p.filename,
            other => panic!("expected a progress, got {other:?}"),
        }
    };
    assert_eq!(name_of("Data/enUS/patch-enUS-4.MPQ"), "patch-enUS-4.MPQ");
    assert_eq!(name_of("Wow.exe"), "Wow.exe");
    assert_eq!(name_of("/abs/file"), "file");
    assert_eq!(name_of("dir/"), "");
    assert_eq!(name_of(""), "");
}

#[test]
fn operations_are_classified_before_the_download() {
    let expected = file("a.bin", 13, vec![]);
    assert_eq!(FileOperation::classify(&expected, &LocalFile::Absent).status(), Status::Missing);
}

#[test]
fn message_for_a_file_without_address() {
    assert_eq!(
        rs_manifest_patcher::download::skip_message(
            SkipReason::NoUrl,
            "Data/patch.MPQ",
            "",
            "cloudflare"
        ),
        "No URL found for provider cloudflare for file Data/patch.MPQ"
    );
}

#[test]
fn message_for_a_failed_download() {
    for reason in [SkipReason::Refused, SkipReason::Unreachable, SkipReason::Interrupted] {
        assert_eq!(
            rs_manifest_patcher::download::skip_message(
                reason,
                "Data/patch.MPQ",
                "http://origin/patch.MPQ",
                "404 Not Found"
            ),
            "Failed to download http://origin/patch.MPQ: 404 Not Found"
        );
    }
}

#[test]
fn message_of_an_error_is_what_was_reported() {
    assert_eq!(DownloadError::Directory("no room".to_string()).message(), "no room");
    assert_eq!(DownloadError::File("read only".to_string()).message(), "read only");
    assert_eq!(DownloadError::Write("disk full".to_string()).message(), "disk full");
    assert_eq!(DownloadError::Sink("cancelled".to_string()).message(), "cancelled");
    assert_eq!(
        DownloadError::OutOfTurn.message(),
        "The download was told of something it had not asked for"
    );
}

#[test]
fn files_are_requested_in_the_order_of_the_manifest() {
    let transaction = all_missing(vec![
        file("1.bin", 1, vec![(Provider::NoCdn, "http://origin/1.bin")]),
        file("2.bin", 1, vec![]),
        file("3.bin", 1, vec![(Provider::NoCdn, "http://origin/3.bin")]),
        file("4.bin", 1, vec![(Provider::NoCdn, "http://origin/4.bin")]),
    ]);
    let mut download = Download::new(&transaction, Provider::Cloudflare);
    let mut requested: Vec<String> = Vec::new();
    let mut action = download.step(Event::Begin);
    let mut steps = 0;
    loop {
        steps += 1;
        assert!(steps < 100, "the batch does not end");
        let event = match action {
            Action::CreateDirectory { .. } => Event::DirectoryReady,
            Action::Request { path, .. } => {
                requested.push(path);
                Event::ResponseReady
            }
            Action::ReadChunk => Event::BodyEnded,
            Action::Report(_) => Event::SinkAccepted,
            Action::Skip { .. } => Event::Noted,
            Action::Finish(result) => {
                assert!(result.is_ok());
                break;
            }
        };
        action = download.step(event);
    }
    assert_eq!(requested, vec!["1.bin", "3.bin", "4.bin"]);
}

#[test]
fn transaction_hands_out_its_download() {
    let transaction =
        all_missing(vec![file("a.bin", 10, vec![(Provider::NoCdn, "http://origin/a.bin")])]);
    let mut download = transaction.download(Provider::NoCdn);
    assert_eq!(download.phase(), Phase::Ready);
    expect_directory(download.step(Event::Begin), "a.bin");
}
