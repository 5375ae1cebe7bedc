use stream_session::config::{copy_config, StreamConfig};
use stream_session::facade::build_config;
use stream_session::session::{ProcessHandle, StreamError, StreamingEngine};
use stream_session::stats::StreamStats;

fn live_config() -> StreamConfig {
    build_config("rtmp://example.com/live".to_string(), 4000)
}

fn streaming_engine(id: u64) -> StreamingEngine {
    let mut engine = StreamingEngine::new();
    assert!(engine.start_stream().is_ok());
    engine
        .finish_start(live_config(), Ok(ProcessHandle { id }))
        .unwrap();
    engine
}

#[test]
fn fresh_engine_is_idle() {
    let engine = StreamingEngine::new();
    assert!(!engine.is_streaming());
    assert!(engine.active_handle().is_none());
    let stats = engine.get_stats();
    assert_eq!(stats.bitrate, 0);
    assert_eq!(stats.fps_milli, 0);
    assert_eq!(stats.dropped_frames, 0);
    assert_eq!(stats.network_quality, "Unknown");
    assert_eq!(stats.uptime, 0);
    let config = engine.current_config();
    assert_eq!(config.destination, "");
    assert_eq!(config.bitrate, 5000);
    assert_eq!(config.resolution, "1920x1080");
    assert!(config.audio_enabled);
    assert!(config.video_enabled);
}

#[test]
fn start_stop_cycle() {
    let mut engine = StreamingEngine::new();

    assert!(engine.start_stream().is_ok());
    let started = engine.finish_start(live_config(), Ok(ProcessHandle { id: 1 }));
    assert!(started.is_ok());
    assert!(engine.is_streaming());
    assert_eq!(engine.current_config().bitrate, 4000);
    assert_eq!(engine.current_config().destination, "rtmp://example.com/live");

    let again = engine.start_stream();
    assert_eq!(again, Err(StreamError::AlreadyActive));

    let granted = engine.stop_stream();
    assert_eq!(granted, Ok(ProcessHandle { id: 1 }));
    let stopped = engine.finish_stop(Ok(()));
    assert!(stopped.is_ok());
    assert!(!engine.is_streaming());

    let idle_stop = engine.stop_stream();
    assert_eq!(idle_stop, Err(StreamError::NotActive));
}

#[test]
fn launch_failure_leaves_idle() {
    let mut engine = StreamingEngine::new();
    assert!(engine.start_stream().is_ok());
    let failed = engine.finish_start(
        live_config(),
        Err("No such file or directory".to_string()),
    );
    assert_eq!(
        failed,
        Err(StreamError::LaunchFailed(
            "No such file or directory".to_string()
        ))
    );
    assert!(!engine.is_streaming());
    assert!(engine.active_handle().is_none());
}

#[test]
fn termination_failure_keeps_streaming() {
    let mut engine = streaming_engine(3);
    let failed = engine.finish_stop(Err("acesso negado".to_string()));
    assert_eq!(
        failed,
        Err(StreamError::TerminationFailed("acesso negado".to_string()))
    );
    assert!(engine.is_streaming());
    assert_eq!(engine.active_handle(), Some(ProcessHandle { id: 3 }));
    assert_eq!(engine.current_config().bitrate, 4000);
}

#[test]
fn rejected_start_changes_nothing() {
    let mut engine = streaming_engine(9);
    let before_config = copy_config(engine.current_config());
    let before_handle = engine.active_handle();

    let rejected = engine.start_stream();
    assert_eq!(rejected, Err(StreamError::AlreadyActive));

    assert!(engine.is_streaming());
    assert_eq!(engine.active_handle(), before_handle);
    assert_eq!(engine.current_config().destination, before_config.destination);
    assert_eq!(engine.current_config().bitrate, before_config.bitrate);
}

#[test]
fn rejected_stop_changes_nothing() {
    let mut engine = StreamingEngine::new();
    let rejected = engine.stop_stream();
    assert_eq!(rejected, Err(StreamError::NotActive));
    assert!(!engine.is_streaming());
    assert!(engine.active_handle().is_none());
    assert_eq!(engine.current_config().bitrate, 5000);
}

#[test]
fn stats_snapshot_roundtrip() {
    let mut engine = StreamingEngine::new();
    engine.set_stats(StreamStats {
        bitrate: 3500,
        fps_milli: 29_970,
        dropped_frames: 4,
        network_quality: "Good".to_string(),
        uptime: 61,
    });
    let stats = engine.get_stats();
    assert_eq!(stats.bitrate, 3500);
    assert_eq!(stats.fps_milli, 29_970);
    assert_eq!(stats.dropped_frames, 4);
    assert_eq!(stats.network_quality, "Good");
    assert_eq!(stats.uptime, 61);
}

#[test]
fn stats_readable_mid_transition() {
    let mut engine = StreamingEngine::new();
    assert!(engine.start_stream().is_ok());
    // The launch is still in flight: the snapshot must be readable as is.
    let stats = engine.get_stats();
    assert_eq!(stats.network_quality, "Unknown");
    engine.finish_start(live_config(), Ok(ProcessHandle { id: 2 })).unwrap();
    // Transitions never touch the snapshot.
    let after = engine.get_stats();
    assert_eq!(after.bitrate, 0);
    assert_eq!(after.network_quality, "Unknown");
}

#[test]
fn state_reflects_last_successful_transition() {
    let mut engine = StreamingEngine::new();

    // Failed start: no successful transition yet, still idle.
    assert!(engine.start_stream().is_ok());
    let _ = engine.finish_start(live_config(), Err("missing binary".to_string()));
    assert!(!engine.is_streaming());

    // Successful start: last success is a start.
    assert!(engine.start_stream().is_ok());
    engine.finish_start(live_config(), Ok(ProcessHandle { id: 5 })).unwrap();
    assert!(engine.is_streaming());

    // Failed stop: last success is still the start.
    assert!(engine.stop_stream().is_ok());
    let _ = engine.finish_stop(Err("busy".to_string()));
    assert!(engine.is_streaming());

    // Successful stop: last success is a stop.
    assert!(engine.stop_stream().is_ok());
    engine.finish_stop(Ok(())).unwrap();
    assert!(!engine.is_streaming());

    // Rejected attempts leave the state where the last success put it.
    assert!(engine.stop_stream().is_err());
    assert!(!engine.is_streaming());
}
