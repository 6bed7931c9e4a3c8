use fsac_acquire::acquire::{
    acquire_step, get_final_args, AcquireAction, AcquireConfig, AcquireEvent, AcquireState,
    DownloadOutcome, FetchOutcome, HostStatus,
};
use fsac_acquire::error::FsacError;

fn config(home: &str, custom_args: Vec<String>) -> AcquireConfig {
    AcquireConfig {
        extension_home: home.to_string(),
        custom_args,
    }
}

fn probed(stdout: &str) -> AcquireEvent {
    AcquireEvent::Probed {
        status: Some(0),
        stdout: stdout.to_string(),
        stderr: String::new(),
    }
}

fn versions(vs: &[&str]) -> AcquireEvent {
    AcquireEvent::Fetched(FetchOutcome::Versions(
        vs.iter().map(|v| v.to_string()).collect(),
    ))
}

fn listing(names: &[&str]) -> AcquireEvent {
    AcquireEvent::Listed(Ok(names.iter().map(|n| n.to_string()).collect()))
}

#[test]
fn full_acquisition_with_matching_major_needs_no_overrides() {
    let cfg = config("/ext", Vec::new());

    let s1 = acquire_step(&cfg, AcquireState::Ready, AcquireEvent::Started);
    assert!(matches!(s1.notify, Some(HostStatus::CheckingForUpdate)));
    match &s1.action {
        AcquireAction::FetchIndex { url } => assert_eq!(
            url,
            "https://api.nuget.org/v3-flatcontainer/fsautocomplete/index.json"
        ),
        _ => panic!("expected the index fetch"),
    }

    let s2 = acquire_step(&cfg, s1.state, versions(&["1.0.0", "1.2.0"]));
    assert!(s2.notify.is_none());
    match &s2.action {
        AcquireAction::CheckPresent { dir } => assert_eq!(dir, "fsautocomplete_1.2.0"),
        _ => panic!("expected the presence check"),
    }

    let s3 = acquire_step(&cfg, s2.state, AcquireEvent::Present(false));
    assert!(matches!(s3.notify, Some(HostStatus::Downloading)));
    match &s3.action {
        AcquireAction::Download { url, dest } => {
            assert_eq!(
                url,
                "https://api.nuget.org/v3-flatcontainer/fsautocomplete/1.2.0/fsautocomplete.1.2.0.nupkg"
            );
            assert_eq!(dest, "fsautocomplete_1.2.0");
        }
        _ => panic!("expected the download"),
    }

    let s4 = acquire_step(&cfg, s3.state, AcquireEvent::Downloaded(DownloadOutcome::Success));
    assert!(matches!(s4.notify, Some(HostStatus::Idle)));
    match &s4.action {
        AcquireAction::RunProbe { program, args } => {
            assert_eq!(program, "dotnet");
            assert_eq!(args, &vec!["--version".to_string()]);
        }
        _ => panic!("expected the runtime probe"),
    }

    let s5 = acquire_step(&cfg, s4.state, probed("8.0.1\n"));
    assert!(s5.notify.is_none());
    match &s5.action {
        AcquireAction::ListDir { dir } => assert_eq!(dir, "fsautocomplete_1.2.0/tools"),
        _ => panic!("expected the listing"),
    }

    let s6 = acquire_step(&cfg, s5.state, listing(&["net6", "net8"]));
    assert!(s6.notify.is_none());
    assert!(matches!(s6.action, AcquireAction::ReadEnv));

    let base = vec![("PATH".to_string(), "/usr/bin".to_string())];
    let s7 = acquire_step(&cfg, s6.state, AcquireEvent::EnvRead(base.clone()));
    assert!(matches!(s7.state, AcquireState::Finished));
    match s7.action {
        AcquireAction::Finish(a) => {
            assert_eq!(
                a.fsac_path,
                "/ext/fsautocomplete_1.2.0/tools/net8/any/fsautocomplete.dll"
            );
            assert!(a.fsac_path.ends_with("/net8/any/fsautocomplete.dll"));
            assert_eq!(a.env, base);
        }
        _ => panic!("expected the finished acquisition"),
    }
}

#[test]
fn diverging_major_and_prerelease_runtime_get_both_overrides() {
    let cfg = config("/ext", Vec::new());
    let s = acquire_step(
        &cfg,
        AcquireState::AwaitingProbe {
            version: "1.2.0".to_string(),
        },
        probed("9.0.0-preview.3\n"),
    );
    let s = acquire_step(&cfg, s.state, listing(&["net6", "net8"]));
    let s = acquire_step(&cfg, s.state, AcquireEvent::EnvRead(Vec::new()));
    match s.action {
        AcquireAction::Finish(a) => {
            assert!(a.fsac_path.ends_with("/net8/any/fsautocomplete.dll"));
            assert_eq!(
                a.env,
                vec![
                    ("DOTNET_ROLL_FORWARD".to_string(), "LatestMajor".to_string()),
                    (
                        "DOTNET_ROLL_FORWARD_TO_PRERELEASE".to_string(),
                        "1".to_string()
                    ),
                ]
            );
        }
        _ => panic!("expected the finished acquisition"),
    }
}

#[test]
fn user_roll_forward_argument_suppresses_the_override() {
    let cfg = config(
        "/ext",
        vec!["--roll-forward".to_string(), "Major".to_string()],
    );
    let s = acquire_step(
        &cfg,
        AcquireState::AwaitingProbe {
            version: "1.2.0".to_string(),
        },
        probed("9.0.1\n"),
    );
    let s = acquire_step(&cfg, s.state, listing(&["net8"]));
    let s = acquire_step(&cfg, s.state, AcquireEvent::EnvRead(Vec::new()));
    match s.action {
        AcquireAction::Finish(a) => assert!(a.env.is_empty()),
        _ => panic!("expected the finished acquisition"),
    }
}

#[test]
fn present_install_is_not_downloaded_again() {
    let cfg = config("/ext", Vec::new());

    // First attempt: the directory is absent, so the one download happens.
    let mut downloads = 0;
    let s = acquire_step(
        &cfg,
        AcquireState::AwaitingPresence {
            version: "1.2.0".to_string(),
        },
        AcquireEvent::Present(false),
    );
    let first_dest = match &s.action {
        AcquireAction::Download { dest, .. } => {
            downloads += 1;
            dest.clone()
        }
        _ => panic!("expected the download"),
    };

    // Second attempt for the same version: the first attempt's unpack left the
    // directory in place, so the check reports it present and no download is
    // asked for.
    let s2 = acquire_step(
        &cfg,
        AcquireState::AwaitingPresence {
            version: "1.2.0".to_string(),
        },
        AcquireEvent::Present(true),
    );
    assert!(matches!(s2.notify, Some(HostStatus::Idle)));
    match &s2.action {
        AcquireAction::Download { .. } => downloads += 1,
        AcquireAction::RunProbe { .. } => {}
        _ => panic!("expected the probe to follow"),
    }
    assert_eq!(downloads, 1);
    assert_eq!(first_dest, "fsautocomplete_1.2.0");
}

#[test]
fn listing_failure_is_an_io_error_not_zero_variants() {
    let cfg = config("/ext", Vec::new());
    let s = acquire_step(
        &cfg,
        AcquireState::AwaitingProbe {
            version: "1.2.0".to_string(),
        },
        probed("8.0.1\n"),
    );
    let s = acquire_step(
        &cfg,
        s.state,
        AcquireEvent::Listed(Err("no such directory".to_string())),
    );
    assert!(matches!(s.state, AcquireState::Finished));
    match &s.action {
        AcquireAction::Fail(FsacError::Io(detail)) => assert_eq!(detail, "no such directory"),
        AcquireAction::Fail(FsacError::NoCompatibleVariant(_)) => {
            panic!("a listing failure must not be reported as a compatibility failure")
        }
        _ => panic!("expected the I/O failure"),
    }
    match &s.notify {
        Some(HostStatus::Failed(m)) => assert_eq!(
            m,
            "failed to read fsautocomplete tools directory: no such directory"
        ),
        _ => panic!("expected the failed status"),
    }
}

#[test]
fn empty_listing_is_a_compatibility_error() {
    let cfg = config("/ext", Vec::new());
    let s = acquire_step(
        &cfg,
        AcquireState::AwaitingProbe {
            version: "1.2.0".to_string(),
        },
        probed("8.0.1\n"),
    );
    let s = acquire_step(&cfg, s.state, listing(&["docs"]));
    match &s.action {
        AcquireAction::Fail(FsacError::NoCompatibleVariant(detail)) => {
            assert_eq!(detail, "8.0.1")
        }
        _ => panic!("expected the compatibility failure"),
    }
}

#[test]
fn transport_failure_fails_the_attempt_as_network_error() {
    let cfg = config("/ext", Vec::new());
    let s = acquire_step(
        &cfg,
        AcquireState::AwaitingIndex,
        AcquireEvent::Fetched(FetchOutcome::Transport("connection refused".to_string())),
    );
    match &s.action {
        AcquireAction::Fail(FsacError::Network(detail)) => assert_eq!(detail, "connection refused"),
        _ => panic!("expected the network failure"),
    }
    match &s.notify {
        Some(HostStatus::Failed(m)) => assert_eq!(
            m,
            "failed to fetch fsautocomplete versions: connection refused"
        ),
        _ => panic!("expected the failed status"),
    }
}

#[test]
fn bad_payload_fails_the_attempt_as_parse_error() {
    let cfg = config("/ext", Vec::new());
    let s = acquire_step(
        &cfg,
        AcquireState::AwaitingIndex,
        AcquireEvent::Fetched(FetchOutcome::BadPayload("unexpected token".to_string())),
    );
    assert!(matches!(
        s.action,
        AcquireAction::Fail(FsacError::Parse(_))
    ));
}

#[test]
fn empty_catalog_fails_the_attempt_as_not_found() {
    let cfg = config("/ext", Vec::new());
    let s = acquire_step(&cfg, AcquireState::AwaitingIndex, versions(&[]));
    assert!(matches!(
        s.action,
        AcquireAction::Fail(FsacError::NotFound)
    ));
}

#[test]
fn failed_download_and_failed_unpack_are_distinct_errors() {
    let cfg = config("/ext", Vec::new());
    let s = acquire_step(
        &cfg,
        AcquireState::AwaitingDownload {
            version: "1.2.0".to_string(),
        },
        AcquireEvent::Downloaded(DownloadOutcome::FetchFailed("timeout".to_string())),
    );
    match &s.action {
        AcquireAction::Fail(FsacError::Download(detail)) => assert_eq!(detail, "timeout"),
        _ => panic!("expected the download failure"),
    }

    let s2 = acquire_step(
        &cfg,
        AcquireState::AwaitingDownload {
            version: "1.2.0".to_string(),
        },
        AcquireEvent::Downloaded(DownloadOutcome::ExtractFailed("bad archive".to_string())),
    );
    match &s2.action {
        AcquireAction::Fail(FsacError::Extract(detail)) => assert_eq!(detail, "bad archive"),
        _ => panic!("expected the unpack failure"),
    }
}

#[test]
fn failed_probe_aborts_the_attempt() {
    let cfg = config("/ext", Vec::new());
    let s = acquire_step(
        &cfg,
        AcquireState::AwaitingProbe {
            version: "1.2.0".to_string(),
        },
        AcquireEvent::Probed {
            status: Some(127),
            stdout: String::new(),
            stderr: "dotnet: not found".to_string(),
        },
    );
    match &s.action {
        AcquireAction::Fail(FsacError::Execution(detail)) => {
            assert_eq!(detail, "dotnet: not found")
        }
        _ => panic!("expected the execution failure"),
    }
}

#[test]
fn final_args_wrap_the_path_and_custom_arguments() {
    let custom = vec!["--verbose".to_string()];
    let args = get_final_args("/ext/server.dll".to_string(), &custom);
    assert_eq!(
        args,
        vec![
            "/ext/server.dll".to_string(),
            "--verbose".to_string(),
            "--adaptive-lsp-server-enabled".to_string(),
        ]
    );
}

#[test]
fn finished_attempt_reports_idle_before_probing() {
    let cfg = config("/ext", Vec::new());
    let s = acquire_step(
        &cfg,
        AcquireState::AwaitingPresence {
            version: "1.2.0".to_string(),
        },
        AcquireEvent::Present(true),
    );
    assert!(matches!(s.notify, Some(HostStatus::Idle)));
    assert!(matches!(s.state, AcquireState::AwaitingProbe { .. }));
}
