use vidfetch::provision::{
    download_url, locate_entry, plan_for, tool_exe, Action, ArchiveKind, Event, Plan, Platform,
    ProvisionError, Provisioner, Tool,
};

#[test]
fn plan_table() {
    assert_eq!(plan_for(Tool::Extractor, Platform::Linux), Plan::Direct);
    assert_eq!(plan_for(Tool::Extractor, Platform::Windows), Plan::Direct);
    assert_eq!(plan_for(Tool::Extractor, Platform::MacOs), Plan::Direct);
    assert_eq!(
        plan_for(Tool::Transcoder, Platform::Linux),
        Plan::Archive { kind: ArchiveKind::CompressedTar }
    );
    assert_eq!(
        plan_for(Tool::Transcoder, Platform::Windows),
        Plan::Archive { kind: ArchiveKind::Zip }
    );
    assert_eq!(plan_for(Tool::Transcoder, Platform::MacOs), Plan::Manual);
}

#[test]
fn one_extractor_release_and_two_transcoder_archives() {
    let a = download_url(Tool::Extractor, Platform::Linux);
    let b = download_url(Tool::Extractor, Platform::Windows);
    assert_eq!(
        a,
        "https://github.com/yt-dlp/yt-dlp/releases/latest/download/yt-dlp"
    );
    assert_eq!(
        b,
        "https://github.com/yt-dlp/yt-dlp/releases/latest/download/yt-dlp.exe"
    );
    assert_eq!(a, download_url(Tool::Extractor, Platform::MacOs));
    let tar = download_url(Tool::Transcoder, Platform::Linux);
    let zip = download_url(Tool::Transcoder, Platform::Windows);
    assert_eq!(
        tar,
        "https://johnvansickle.com/ffmpeg/releases/ffmpeg-release-amd64-static.tar.xz"
    );
    assert_eq!(
        zip,
        "https://www.gyan.dev/ffmpeg/builds/ffmpeg-release-essentials.zip"
    );
}

#[test]
fn archive_entry_location_takes_the_first_anchored_match() {
    let entries = vec![
        "doc/readme".to_string(),
        "bin/ffprobe".to_string(),
        "lib/libffmpeg".to_string(),
        "bin/ffmpeg".to_string(),
        "other/ffmpeg".to_string(),
    ];
    // "lib/libffmpeg" carries the suffix but not at a path-component
    // boundary, so the first real match is "bin/ffmpeg".
    assert_eq!(locate_entry(&entries, "ffmpeg"), Some(3));
    assert_eq!(locate_entry(&entries, "ffmpeg.exe"), None);
    let bare = vec!["ffmpeg".to_string()];
    assert_eq!(locate_entry(&bare, "ffmpeg"), Some(0));
    assert_eq!(tool_exe(Tool::Transcoder, Platform::Windows), "ffmpeg.exe");
    assert_eq!(tool_exe(Tool::Transcoder, Platform::Linux), "ffmpeg");
    assert_eq!(tool_exe(Tool::Extractor, Platform::Windows), "yt-dlp.exe");
    assert_eq!(tool_exe(Tool::Extractor, Platform::MacOs), "yt-dlp");
}

#[test]
fn missing_extractor_is_fetched_written_and_marked_executable() {
    // The extraction tool arrives archive-less on this platform: the run
    // streams the fetch straight to the final file, then sets its mode.
    let (mut p, first) = Provisioner::start(Tool::Extractor, Platform::Linux);
    assert!(matches!(first, Action::CheckPresence));
    let mut network_calls = 0;
    let a = p.step(Event::Presence { present: false });
    match a {
        Action::Fetch { url } => {
            network_calls += 1;
            assert_eq!(
                url,
                "https://github.com/yt-dlp/yt-dlp/releases/latest/download/yt-dlp"
            );
        }
        other => panic!("expected a fetch, got {:?}", other),
    }
    let a = p.step(Event::Fetched { outcome: Ok(()) });
    assert!(matches!(a, Action::MarkExecutable));
    let a = p.step(Event::Marked);
    assert!(matches!(a, Action::Report { outcome: Ok(()) }));
    assert_eq!(network_calls, 1);

    // A repeat run finds the file and performs no network call.
    let (mut p, first) = Provisioner::start(Tool::Extractor, Platform::Linux);
    assert!(matches!(first, Action::CheckPresence));
    let a = p.step(Event::Presence { present: true });
    match a {
        Action::Fetch { .. } => network_calls += 1,
        Action::Report { outcome } => assert!(outcome.is_ok()),
        other => panic!("unexpected action {:?}", other),
    }
    assert_eq!(network_calls, 1);
}

#[test]
fn provisioned_directory_is_never_fetched_twice_in_a_row() {
    let mut network_calls = 0;
    for _ in 0..2 {
        let (mut p, first) = Provisioner::start(Tool::Transcoder, Platform::Linux);
        assert!(matches!(first, Action::CheckPresence));
        let a = p.step(Event::Presence { present: true });
        match a {
            Action::Fetch { .. } => network_calls += 1,
            Action::Report { outcome } => assert!(outcome.is_ok()),
            other => panic!("unexpected action {:?}", other),
        }
    }
    assert_eq!(network_calls, 0);
}

#[test]
fn transcoder_archive_run_unpacks_copies_and_marks() {
    let (mut p, first) = Provisioner::start(Tool::Transcoder, Platform::Linux);
    assert!(matches!(first, Action::CheckPresence));
    let a = p.step(Event::Presence { present: false });
    match a {
        Action::Fetch { url } => assert!(url.ends_with(".tar.xz")),
        other => panic!("expected a fetch, got {:?}", other),
    }
    let a = p.step(Event::Fetched { outcome: Ok(()) });
    assert!(matches!(a, Action::Unpack { kind: ArchiveKind::CompressedTar }));
    let entries = vec![
        "ffmpeg-build/doc/readme".to_string(),
        "ffmpeg-build/bin/ffmpeg".to_string(),
        "ffmpeg-build/bin/ffprobe".to_string(),
    ];
    let a = p.step(Event::Unpacked { entries });
    match a {
        Action::CopyEntry { entry } => assert_eq!(entry, "ffmpeg-build/bin/ffmpeg"),
        other => panic!("expected a copy, got {:?}", other),
    }
    let a = p.step(Event::Copied);
    assert!(matches!(a, Action::MarkExecutable));
    let a = p.step(Event::Marked);
    assert!(matches!(a, Action::Report { outcome: Ok(()) }));
}

#[test]
fn windows_transcoder_uses_zip_and_exe_name() {
    let (mut p, _) = Provisioner::start(Tool::Transcoder, Platform::Windows);
    let a = p.step(Event::Presence { present: false });
    match a {
        Action::Fetch { url } => assert!(url.ends_with(".zip")),
        other => panic!("expected a fetch, got {:?}", other),
    }
    let a = p.step(Event::Fetched { outcome: Ok(()) });
    assert!(matches!(a, Action::Unpack { kind: ArchiveKind::Zip }));
    let entries = vec!["build/bin/ffmpeg.exe".to_string(), "build/bin/ffmpeg".to_string()];
    let a = p.step(Event::Unpacked { entries });
    match a {
        Action::CopyEntry { entry } => assert_eq!(entry, "build/bin/ffmpeg.exe"),
        other => panic!("expected a copy, got {:?}", other),
    }
}

#[test]
fn transport_failure_reports_the_network_error() {
    let (mut p, _) = Provisioner::start(Tool::Extractor, Platform::Windows);
    let a = p.step(Event::Presence { present: false });
    assert!(matches!(a, Action::Fetch { .. }));
    let a = p.step(Event::Fetched { outcome: Err("connection timed out".to_string()) });
    match a {
        Action::Report { outcome } => assert_eq!(
            outcome,
            Err(ProvisionError::Network { detail: "connection timed out".to_string() })
        ),
        other => panic!("expected a report, got {:?}", other),
    }
}

#[test]
fn archive_without_the_executable_reports_artifact_not_found() {
    let (mut p, _) = Provisioner::start(Tool::Transcoder, Platform::Linux);
    let _ = p.step(Event::Presence { present: false });
    let _ = p.step(Event::Fetched { outcome: Ok(()) });
    let entries = vec!["build/doc/readme".to_string(), "build/bin/ffprobe".to_string()];
    let a = p.step(Event::Unpacked { entries });
    match a {
        Action::Report { outcome } => assert_eq!(outcome, Err(ProvisionError::ArtifactNotFound)),
        other => panic!("expected a report, got {:?}", other),
    }
}

#[test]
fn macos_extractor_is_provisioned_automatically() {
    let (mut p, first) = Provisioner::start(Tool::Extractor, Platform::MacOs);
    assert!(matches!(first, Action::CheckPresence));
    let a = p.step(Event::Presence { present: false });
    match a {
        Action::Fetch { url } => assert_eq!(
            url,
            "https://github.com/yt-dlp/yt-dlp/releases/latest/download/yt-dlp"
        ),
        other => panic!("expected a fetch, got {:?}", other),
    }
    let a = p.step(Event::Fetched { outcome: Ok(()) });
    assert!(matches!(a, Action::MarkExecutable));
    let a = p.step(Event::Marked);
    assert!(matches!(a, Action::Report { outcome: Ok(()) }));
}

#[test]
fn platform_without_an_automated_source_requires_manual_install() {
    let (p, a) = Provisioner::start(Tool::Transcoder, Platform::MacOs);
    match a {
        Action::Report { outcome } => {
            assert_eq!(outcome, Err(ProvisionError::ManualInstallRequired))
        }
        other => panic!("expected a report, got {:?}", other),
    }
    let _ = p;
}
