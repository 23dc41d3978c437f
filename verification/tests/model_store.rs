use whisper_server::config::{
    AccelerationKind, AppConfig, BackendKind, WhisperModelSize,
};
use whisper_server::model_store::{
    hf_resolve_url, lock_path_for, part_path_for, AcquireAction, AcquireEvent, ModelAcquisition,
};

#[test]
fn resolve_url_normalizes_edges() {
    assert_eq!(
        hf_resolve_url("/ggerganov/whisper.cpp/", "/ggml-small.bin/"),
        "https://huggingface.co/ggerganov/whisper.cpp/resolve/main/ggml-small.bin"
    );
}

#[test]
fn lock_path_uses_sibling_file() {
    assert_eq!(
        lock_path_for("/tmp/ggml-small.bin"),
        "/tmp/ggml-small.bin.lock"
    );
}

#[test]
fn part_path_replaces_the_extension() {
    assert_eq!(part_path_for("/tmp/ggml-small.bin"), "/tmp/ggml-small.part");
    assert_eq!(part_path_for("/tmp/model"), "/tmp/model.part");
    assert_eq!(part_path_for("/tmp/x.tar.gz"), "/tmp/x.tar.part");
}

#[test]
fn lock_path_without_a_directory_stays_relative() {
    assert_eq!(lock_path_for("model.bin"), "model.bin.lock");
}

fn test_cfg() -> AppConfig {
    AppConfig {
        host: "127.0.0.1".to_string(),
        port: 8000,
        api_key: None,
        whisper_model: "/models/ggml-small.bin".to_string(),
        whisper_model_explicit: true,
        whisper_auto_download: true,
        whisper_hf_repo: "ggerganov/whisper.cpp".to_string(),
        whisper_hf_filename: "ggml-small.bin".to_string(),
        whisper_cache_dir: "/cache".to_string(),
        hf_token: None,
        api_model_alias: "whisper-mlx".to_string(),
        backend_kind: BackendKind::WhisperRs,
        whisper_parallelism: 1,
        whisper_model_size: WhisperModelSize::Small,
        acceleration_kind: AccelerationKind::Cpu,
        acceleration_explicit: false,
    }
}

#[test]
fn existing_model_concludes_without_lock_or_network() {
    let cfg = test_cfg();
    let (mut m, first) = ModelAcquisition::start(&cfg);
    assert!(matches!(first, AcquireAction::CheckConfigured { ref path } if path == "/models/ggml-small.bin"));
    let action = m.on_event(AcquireEvent::FileStatus {
        exists_nonempty: true,
    });
    match action {
        AcquireAction::Conclude { outcome } => {
            assert_eq!(outcome.unwrap(), "/models/ggml-small.bin");
        }
        other => panic!("expected the attempt to conclude, got {other:?}"),
    }
}

#[test]
fn disabled_download_fails_with_configuration_error() {
    let mut cfg = test_cfg();
    cfg.whisper_auto_download = false;
    let (mut m, _) = ModelAcquisition::start(&cfg);
    let action = m.on_event(AcquireEvent::FileStatus {
        exists_nonempty: false,
    });
    match action {
        AcquireAction::Conclude { outcome } => {
            let err = outcome.unwrap_err();
            assert!(err.to_string().contains("WHISPER_AUTO_DOWNLOAD"));
        }
        other => panic!("expected a configuration failure, got {other:?}"),
    }
}

#[test]
fn full_download_releases_the_lock_before_concluding() {
    let cfg = test_cfg();
    let (mut m, _) = ModelAcquisition::start(&cfg);
    let a = m.on_event(AcquireEvent::FileStatus {
        exists_nonempty: false,
    });
    assert!(matches!(a, AcquireAction::CheckTarget { .. }));
    let a = m.on_event(AcquireEvent::FileStatus {
        exists_nonempty: false,
    });
    assert!(matches!(a, AcquireAction::CreateParentDir { .. }));
    let a = m.on_event(AcquireEvent::DirCreated { error: None });
    assert!(
        matches!(a, AcquireAction::TryCreateLock { ref lock_path } if lock_path == "/models/ggml-small.bin.lock")
    );
    let a = m.on_event(AcquireEvent::LockCreated);
    assert!(matches!(a, AcquireAction::RecheckTarget { .. }));
    let a = m.on_event(AcquireEvent::FileStatus {
        exists_nonempty: false,
    });
    match &a {
        AcquireAction::Download { url, bearer_token } => {
            assert_eq!(
                url,
                "https://huggingface.co/ggerganov/whisper.cpp/resolve/main/ggml-small.bin"
            );
            assert!(bearer_token.is_none());
        }
        other => panic!("expected a download, got {other:?}"),
    }
    let a = m.on_event(AcquireEvent::DownloadStatus { status: 200 });
    assert!(
        matches!(a, AcquireAction::StreamBody { ref tmp_path } if tmp_path == "/models/ggml-small.part")
    );
    let a = m.on_event(AcquireEvent::Streamed { bytes: 1024 });
    assert!(matches!(a, AcquireAction::RenameTmp { .. }));
    // The lock is released before the attempt concludes, on success too.
    let a = m.on_event(AcquireEvent::Renamed { error: None });
    assert!(
        matches!(a, AcquireAction::ReleaseLock { ref lock_path, ref remove_tmp } if lock_path == "/models/ggml-small.bin.lock" && remove_tmp.is_none())
    );
    let a = m.on_event(AcquireEvent::LockRemoved);
    match a {
        AcquireAction::Conclude { outcome } => {
            assert_eq!(outcome.unwrap(), "/models/ggml-small.bin");
        }
        other => panic!("expected the attempt to conclude, got {other:?}"),
    }
}

fn drive_to_download(m: &mut ModelAcquisition) {
    m.on_event(AcquireEvent::FileStatus {
        exists_nonempty: false,
    });
    m.on_event(AcquireEvent::FileStatus {
        exists_nonempty: false,
    });
    m.on_event(AcquireEvent::DirCreated { error: None });
    m.on_event(AcquireEvent::LockCreated);
    let a = m.on_event(AcquireEvent::FileStatus {
        exists_nonempty: false,
    });
    assert!(matches!(a, AcquireAction::Download { .. }));
}

#[test]
fn not_found_status_releases_the_lock_then_fails() {
    let cfg = test_cfg();
    let (mut m, _) = ModelAcquisition::start(&cfg);
    drive_to_download(&mut m);
    let a = m.on_event(AcquireEvent::DownloadStatus { status: 404 });
    assert!(matches!(a, AcquireAction::ReleaseLock { .. }));
    match m.on_event(AcquireEvent::LockRemoved) {
        AcquireAction::Conclude { outcome } => {
            assert!(outcome.unwrap_err().to_string().contains("model not found"));
        }
        other => panic!("expected the attempt to conclude, got {other:?}"),
    }
}

#[test]
fn auth_status_names_the_token_requirement() {
    let cfg = test_cfg();
    let (mut m, _) = ModelAcquisition::start(&cfg);
    drive_to_download(&mut m);
    let a = m.on_event(AcquireEvent::DownloadStatus { status: 401 });
    assert!(matches!(a, AcquireAction::ReleaseLock { .. }));
    match m.on_event(AcquireEvent::LockRemoved) {
        AcquireAction::Conclude { outcome } => {
            assert!(outcome.unwrap_err().to_string().contains("HF_TOKEN"));
        }
        other => panic!("expected the attempt to conclude, got {other:?}"),
    }
}

#[test]
fn empty_download_is_refused_and_the_temp_file_removed() {
    let cfg = test_cfg();
    let (mut m, _) = ModelAcquisition::start(&cfg);
    drive_to_download(&mut m);
    m.on_event(AcquireEvent::DownloadStatus { status: 200 });
    let a = m.on_event(AcquireEvent::Streamed { bytes: 0 });
    assert!(
        matches!(a, AcquireAction::ReleaseLock { ref remove_tmp, .. } if remove_tmp.as_deref() == Some("/models/ggml-small.part"))
    );
    match m.on_event(AcquireEvent::LockRemoved) {
        AcquireAction::Conclude { outcome } => {
            assert!(outcome
                .unwrap_err()
                .to_string()
                .contains("downloaded empty model file"));
        }
        other => panic!("expected the attempt to conclude, got {other:?}"),
    }
}

#[test]
fn lock_polling_times_out_after_the_budget() {
    let cfg = test_cfg();
    let (mut m, _) = ModelAcquisition::start(&cfg);
    m.on_event(AcquireEvent::FileStatus {
        exists_nonempty: false,
    });
    m.on_event(AcquireEvent::FileStatus {
        exists_nonempty: false,
    });
    m.on_event(AcquireEvent::DirCreated { error: None });
    // 480 sleeps of 250 ms reach the 120 s budget; the next busy poll fails.
    for _ in 0..480 {
        let a = m.on_event(AcquireEvent::LockBusy);
        assert!(matches!(
            a,
            AcquireAction::SleepPollInterval { millis: 250 }
        ));
        let a = m.on_event(AcquireEvent::Slept);
        assert!(matches!(a, AcquireAction::TryCreateLock { .. }));
    }
    match m.on_event(AcquireEvent::LockBusy) {
        AcquireAction::Conclude { outcome } => {
            assert!(outcome.unwrap_err().to_string().contains("timed out"));
        }
        other => panic!("expected a timeout, got {other:?}"),
    }
}

#[test]
fn post_lock_recheck_adopts_a_concurrent_download() {
    let cfg = test_cfg();
    let (mut m, _) = ModelAcquisition::start(&cfg);
    m.on_event(AcquireEvent::FileStatus {
        exists_nonempty: false,
    });
    m.on_event(AcquireEvent::FileStatus {
        exists_nonempty: false,
    });
    m.on_event(AcquireEvent::DirCreated { error: None });
    m.on_event(AcquireEvent::LockCreated);
    // Another process finished the download while this one was locking.
    let a = m.on_event(AcquireEvent::FileStatus {
        exists_nonempty: true,
    });
    assert!(matches!(a, AcquireAction::ReleaseLock { .. }));
    match m.on_event(AcquireEvent::LockRemoved) {
        AcquireAction::Conclude { outcome } => {
            assert_eq!(outcome.unwrap(), "/models/ggml-small.bin");
        }
        other => panic!("expected the attempt to conclude, got {other:?}"),
    }
}

#[test]
fn derived_target_joins_cache_dir_and_filename() {
    let mut cfg = test_cfg();
    cfg.whisper_model_explicit = false;
    let (_, first) = ModelAcquisition::start(&cfg);
    assert!(matches!(first, AcquireAction::CheckConfigured { .. }));
    let (mut m, _) = ModelAcquisition::start(&cfg);
    let a = m.on_event(AcquireEvent::FileStatus {
        exists_nonempty: false,
    });
    assert!(matches!(a, AcquireAction::CheckTarget { ref path } if path == "/cache/ggml-small.bin"));
}
