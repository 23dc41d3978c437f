use whisper_server::backend::whisper_rs::{build_contexts, WhisperRsBackend};
use whisper_server::config::{
    AccelerationKind, AppConfig, BackendKind, WhisperModelSize,
};

fn cfg(parallelism: usize, kind: AccelerationKind, explicit: bool) -> AppConfig {
    AppConfig {
        host: "127.0.0.1".to_string(),
        port: 8000,
        api_key: None,
        whisper_model: "/models/ggml-small.bin".to_string(),
        whisper_model_explicit: true,
        whisper_auto_download: false,
        whisper_hf_repo: "ggerganov/whisper.cpp".to_string(),
        whisper_hf_filename: "ggml-small.bin".to_string(),
        whisper_cache_dir: "/cache".to_string(),
        hf_token: None,
        api_model_alias: "whisper-mlx".to_string(),
        backend_kind: BackendKind::WhisperRs,
        whisper_parallelism: parallelism,
        whisper_model_size: WhisperModelSize::Small,
        acceleration_kind: kind,
        acceleration_explicit: explicit,
    }
}

fn id_loader(i: usize, _use_gpu: bool) -> Result<u32, String> {
    Ok(i as u32)
}

#[test]
fn acquire_next_cycles_round_robin() {
    let mut pool =
        WhisperRsBackend::new(cfg(3, AccelerationKind::Cpu, false), &id_loader).unwrap();
    let indices: Vec<usize> = (0..7).map(|_| pool.acquire_next()).collect();
    assert_eq!(indices, vec![0, 1, 2, 0, 1, 2, 0]);
}

#[test]
fn single_handle_pool_always_returns_index_zero() {
    let mut pool =
        WhisperRsBackend::new(cfg(1, AccelerationKind::Cpu, false), &id_loader).unwrap();
    for _ in 0..5 {
        assert_eq!(pool.acquire_next(), 0);
    }
}

#[test]
fn largest_pool_cycles_through_all_eight_handles() {
    let mut pool =
        WhisperRsBackend::new(cfg(8, AccelerationKind::Cpu, false), &id_loader).unwrap();
    let indices: Vec<usize> = (0..16).map(|_| pool.acquire_next()).collect();
    assert_eq!(indices, (0..8).chain(0..8).collect::<Vec<usize>>());
}

#[test]
fn contexts_are_loaded_per_worker() {
    let pool = WhisperRsBackend::new(cfg(4, AccelerationKind::Cpu, false), &id_loader).unwrap();
    for i in 0..4 {
        assert_eq!(*pool.context(i), i as u32);
    }
}

#[test]
fn failed_worker_aborts_construction_and_names_it() {
    let load = |i: usize, _g: bool| -> Result<u32, String> {
        if i == 1 {
            Err("boom".to_string())
        } else {
            Ok(i as u32)
        }
    };
    let err = build_contexts("/models/x.bin", 3, AccelerationKind::Cpu, &load).unwrap_err();
    let text = err.to_string();
    assert!(text.contains("worker 2"));
    assert!(text.contains("boom"));
}

#[test]
fn defaulted_acceleration_falls_back_to_cpu() {
    let load = |i: usize, use_gpu: bool| -> Result<u32, String> {
        if use_gpu {
            Err("no accelerator".to_string())
        } else {
            Ok(i as u32)
        }
    };
    let pool = WhisperRsBackend::new(cfg(2, AccelerationKind::Metal, false), &load).unwrap();
    assert_eq!(*pool.context(0), 0);
}

#[test]
fn explicit_acceleration_failure_is_fatal() {
    let load = |i: usize, use_gpu: bool| -> Result<u32, String> {
        if use_gpu {
            Err("no accelerator".to_string())
        } else {
            Ok(i as u32)
        }
    };
    let err = WhisperRsBackend::<u32>::new(cfg(2, AccelerationKind::Cuda, true), &load)
        .unwrap_err();
    assert!(err.to_string().contains("cuda"));
}

#[test]
fn chained_failure_reports_both_causes() {
    let load = |_i: usize, use_gpu: bool| -> Result<u32, String> {
        if use_gpu {
            Err("gpu down".to_string())
        } else {
            Err("cpu down".to_string())
        }
    };
    let err = WhisperRsBackend::<u32>::new(cfg(2, AccelerationKind::Metal, false), &load)
        .unwrap_err();
    let text = err.to_string();
    assert!(text.contains("gpu down"));
    assert!(text.contains("cpu down"));
}
