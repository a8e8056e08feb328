use hyperzenith::outcome::archived_message;
use hyperzenith::outcome::classify_exit;
use hyperzenith::outcome::clean_report;
use hyperzenith::outcome::clean_targets;
use hyperzenith::outcome::clear_summary;
use hyperzenith::outcome::finish_local_build;
use hyperzenith::outcome::is_artifact_extension;
use hyperzenith::outcome::is_fresh_artifact;
use hyperzenith::outcome::ArtifactState;
use hyperzenith::outcome::BuildOutcome;
use hyperzenith::outcome::CleanResult;
use hyperzenith::paths::archive_dest_name;
use hyperzenith::paths::archive_dir;
use hyperzenith::paths::fresh_archive_name;
use hyperzenith::paths::fresh_log_file_name;
use hyperzenith::paths::ios_log_dir_under;
use hyperzenith::paths::join_path;
use hyperzenith::paths::log_file_name;
use hyperzenith::paths::log_prefix;
use hyperzenith::paths::logs_dir;
use hyperzenith::paths::BuildPlatform;
use hyperzenith::registry::abort_message;
use hyperzenith::registry::ActiveBuildRegistry;
use hyperzenith::relay::relay_read;
use hyperzenith::relay::relay_read_unbuffered;
use hyperzenith::relay::relay_stream;
use hyperzenith::relay::LogBuffer;
use hyperzenith::relay::RelayStep;
use hyperzenith::strutil::contains_str;
use hyperzenith::strutil::i32_to_string;
use hyperzenith::strutil::str_eq;
use hyperzenith::strutil::usize_to_string;

#[test]
fn relay_concatenates_chunks_in_order() {
    let mut buffer = LogBuffer::new();
    let reads: Vec<Vec<u8>> = vec![
        b"Building ".to_vec(),
        b"module a\n".to_vec(),
        b"done.".to_vec(),
        Vec::new(),
        b"after end, never read".to_vec(),
    ];
    let emitted = relay_stream(&mut buffer, &reads);
    assert_eq!(emitted.len(), 3);
    assert_eq!(emitted[0], "Building ");
    assert_eq!(emitted[1], "module a\n");
    assert_eq!(emitted[2], "done.");
    assert_eq!(buffer.contents(), "Building module a\ndone.");
    assert!(!buffer.is_empty());
}

#[test]
fn relay_single_reads_and_end_of_stream() {
    let mut buffer = LogBuffer::new();
    match relay_read(&mut buffer, b"hello") {
        RelayStep::Chunk(c) => assert_eq!(c, "hello"),
        RelayStep::EndOfStream => panic!("expected a chunk"),
    }
    match relay_read(&mut buffer, b" world") {
        RelayStep::Chunk(c) => assert_eq!(c, " world"),
        RelayStep::EndOfStream => panic!("expected a chunk"),
    }
    match relay_read(&mut buffer, b"") {
        RelayStep::EndOfStream => {}
        RelayStep::Chunk(_) => panic!("zero-byte read must end the stream"),
    }
    assert_eq!(buffer.contents(), "hello world");
}

#[test]
fn relay_replaces_invalid_bytes() {
    let mut buffer = LogBuffer::new();
    match relay_read(&mut buffer, &[0xff, 0xfe]) {
        RelayStep::Chunk(c) => assert_eq!(c, "\u{FFFD}\u{FFFD}"),
        RelayStep::EndOfStream => panic!("expected a chunk"),
    }
    assert_eq!(buffer.contents(), "\u{FFFD}\u{FFFD}");
}

#[test]
fn relay_unbuffered_decodes_without_transcript() {
    match relay_read_unbuffered(b"output") {
        RelayStep::Chunk(c) => assert_eq!(c, "output"),
        RelayStep::EndOfStream => panic!("expected a chunk"),
    }
    assert!(matches!(
        relay_read_unbuffered(b""),
        RelayStep::EndOfStream
    ));
}

#[test]
fn registry_evicts_previous_occupant() {
    let mut registry: ActiveBuildRegistry<u32> = ActiveBuildRegistry::new();
    assert!(!registry.is_occupied());
    assert_eq!(registry.register(7), None);
    assert!(registry.is_occupied());
    // A second registration hands the first handle back for termination.
    assert_eq!(registry.register(8), Some(7));
    assert!(registry.is_occupied());
    assert_eq!(registry.abort(), Some(8));
    assert!(!registry.is_occupied());
}

#[test]
fn abort_without_build_is_a_no_op() {
    let mut registry: ActiveBuildRegistry<u32> = ActiveBuildRegistry::new();
    assert_eq!(registry.abort(), None);
    // A second abort still finds the slot empty and still does not err.
    assert_eq!(registry.abort(), None);
    assert_eq!(abort_message(false), "No active build");
    assert_eq!(abort_message(true), "Build Aborted");
}

#[test]
fn classification_by_exit_code() {
    assert!(matches!(classify_exit(0), BuildOutcome::Success));
    assert!(matches!(
        classify_exit(1),
        BuildOutcome::Failure { exit_code: 1 }
    ));
    assert!(matches!(
        classify_exit(-1),
        BuildOutcome::Failure { exit_code: -1 }
    ));
}

#[test]
fn log_names_carry_outcome_prefix() {
    assert_eq!(log_prefix(&BuildPlatform::Android, true), "android_build_success");
    assert_eq!(log_prefix(&BuildPlatform::Android, false), "android_build_fail");
    assert_eq!(log_prefix(&BuildPlatform::Ios, true), "ios_build_success");
    assert_eq!(log_prefix(&BuildPlatform::Ios, false), "ios_build_fail");
    assert_eq!(
        log_file_name(&BuildPlatform::Android, true, "2024-01-01_10-00-00"),
        "android_build_success_2024-01-01_10-00-00.log"
    );
    assert_eq!(
        log_file_name(&BuildPlatform::Android, false, "2024-01-01_10-00-00"),
        "android_build_fail_2024-01-01_10-00-00.log"
    );
    let stamped = fresh_log_file_name(&BuildPlatform::Android, false);
    assert!(stamped.starts_with("android_build_fail_"));
    assert!(stamped.ends_with(".log"));
}

#[test]
fn local_build_reports() {
    assert_eq!(
        finish_local_build(0, &ArtifactState::Fresh, "p.log"),
        Ok("Build completed! (Fresh APK)".to_string())
    );
    assert_eq!(
        finish_local_build(0, &ArtifactState::Cached, "p.log"),
        Ok("Build completed! (Cached - no code changes)".to_string())
    );
    assert_eq!(
        finish_local_build(0, &ArtifactState::Missing, "p.log"),
        Ok("Build completed!".to_string())
    );
    assert_eq!(
        finish_local_build(1, &ArtifactState::Missing, "logs/fail.log"),
        Err("Build failed. Log: logs/fail.log".to_string())
    );
}

#[test]
fn freshness_window() {
    assert!(is_fresh_artifact(0));
    assert!(is_fresh_artifact(119));
    assert!(!is_fresh_artifact(120));
    assert!(!is_fresh_artifact(100_000));
}

#[test]
fn archive_messages_uppercase_extension() {
    assert_eq!(archived_message("apk", true), "New APK archived!");
    assert_eq!(archived_message("aab", false), "Cached AAB (code unchanged)");
}

#[test]
fn artifact_extension_check_ignores_case() {
    assert!(is_artifact_extension("apk"));
    assert!(is_artifact_extension("APK"));
    assert!(is_artifact_extension("IpA"));
    assert!(is_artifact_extension("aab"));
    assert!(is_artifact_extension("app"));
    assert!(!is_artifact_extension("txt"));
    assert!(!is_artifact_extension(""));
    assert!(!is_artifact_extension("apk2"));
}

#[test]
fn clear_summaries() {
    assert_eq!(clear_summary(0), "No APKs to clear.");
    assert_eq!(clear_summary(1), "Cleared 1 APK(s)");
    assert_eq!(clear_summary(12), "Cleared 12 APK(s)");
}

#[test]
fn clean_targets_and_report() {
    let targets = clean_targets("C:/proj");
    assert_eq!(
        targets,
        vec![
            "C:/proj/android/app/build".to_string(),
            "C:/proj/android/build".to_string(),
            "C:/proj/android/.gradle".to_string(),
        ]
    );

    let none: Vec<CleanResult> = Vec::new();
    assert_eq!(clean_report(&none), "Nothing to nuke! (Clean)");

    let all_failed = vec![CleanResult {
        name: "build".to_string(),
        removed: false,
    }];
    assert_eq!(clean_report(&all_failed), "Nothing to nuke! (Clean)");

    let all_removed = vec![
        CleanResult {
            name: "build".to_string(),
            removed: true,
        },
        CleanResult {
            name: ".gradle".to_string(),
            removed: true,
        },
    ];
    assert_eq!(clean_report(&all_removed), "Nuked: build, .gradle (2 items)");

    let mixed = vec![
        CleanResult {
            name: "build".to_string(),
            removed: true,
        },
        CleanResult {
            name: ".gradle".to_string(),
            removed: false,
        },
    ];
    assert_eq!(
        clean_report(&mixed),
        "Nuked: build, (Fail: .gradle)  (1 items)"
    );
}

#[test]
fn directory_resolution() {
    assert_eq!(logs_dir("C:/proj"), "C:/proj/hyperzenith_logs");
    assert_eq!(archive_dir("C:/proj", &None), "C:/proj/hyperzenith_builds");
    assert_eq!(
        archive_dir("C:/proj", &Some(String::new())),
        "C:/proj/hyperzenith_builds"
    );
    assert_eq!(archive_dir("C:/proj", &Some("D:/out".to_string())), "D:/out");
    assert_eq!(join_path("a/b", "c.log"), "a/b/c.log");
    assert_eq!(
        ios_log_dir_under("/Users/dev"),
        "/Users/dev/.hyperzenith/ios_logs"
    );
}

#[test]
fn archive_names() {
    assert_eq!(
        archive_dest_name("2024-01-01_10-00-00", "apk"),
        "app-debug_2024-01-01_10-00-00.apk"
    );
    let stamped = fresh_archive_name("aab");
    assert!(stamped.starts_with("app-debug_"));
    assert!(stamped.ends_with(".aab"));
}

#[test]
fn string_utilities() {
    assert_eq!(usize_to_string(0), "0");
    assert_eq!(usize_to_string(7), "7");
    assert_eq!(usize_to_string(42), "42");
    assert_eq!(usize_to_string(1024), "1024");
    assert_eq!(i32_to_string(-1), "-1");
    assert_eq!(i32_to_string(i32::MIN), "-2147483648");
    assert_eq!(i32_to_string(65), "65");
    assert!(str_eq("abc", "abc"));
    assert!(!str_eq("abc", "abd"));
    assert!(!str_eq("abc", "ab"));
    assert!(str_eq("", ""));
    assert!(contains_str("hay XCODE_NOT_FOUND stack", "XCODE_NOT_FOUND"));
    assert!(!contains_str("hay stack", "needle"));
    assert!(contains_str("abc", ""));
    assert!(contains_str("abc", "abc"));
    assert!(!contains_str("ab", "abc"));
}
