use stream_session::facade::{
    build_config, config_is_valid, error_message, start_reply, start_success_message,
    stop_reply, stop_success_message,
};
use stream_session::session::StreamError;

#[test]
fn build_config_fixes_defaults() {
    let config = build_config("rtmp://example.com/live".to_string(), 4000);
    assert_eq!(config.destination, "rtmp://example.com/live");
    assert_eq!(config.bitrate, 4000);
    assert_eq!(config.resolution, "1920x1080");
    assert!(config.audio_enabled);
    assert!(config.video_enabled);
}

#[test]
fn config_validation() {
    let good = build_config("rtmp://example.com/live".to_string(), 4000);
    assert!(config_is_valid(&good));

    let zero_bitrate = build_config("rtmp://example.com/live".to_string(), 0);
    assert!(!config_is_valid(&zero_bitrate));

    let empty_destination = build_config("".to_string(), 4000);
    assert!(!config_is_valid(&empty_destination));
}

#[test]
fn success_messages() {
    assert_eq!(start_success_message(), "Stream iniciado com sucesso");
    assert_eq!(stop_success_message(), "Stream parado com sucesso");
}

#[test]
fn replies_follow_the_outcome() {
    assert_eq!(
        start_reply(&Ok(())),
        Ok("Stream iniciado com sucesso".to_string())
    );
    assert_eq!(
        start_reply(&Err(StreamError::AlreadyActive)),
        Err("Stream já está ativo".to_string())
    );
    assert_eq!(
        stop_reply(&Ok(())),
        Ok("Stream parado com sucesso".to_string())
    );
    assert_eq!(
        stop_reply(&Err(StreamError::NotActive)),
        Err("Stream não está ativo".to_string())
    );
    assert_eq!(
        stop_reply(&Err(StreamError::TerminationFailed("sinal perdido".to_string()))),
        Err("Erro ao parar stream: sinal perdido".to_string())
    );
}

#[test]
fn error_messages() {
    assert_eq!(
        error_message(&StreamError::AlreadyActive),
        "Stream já está ativo"
    );
    assert_eq!(
        error_message(&StreamError::NotActive),
        "Stream não está ativo"
    );
    assert_eq!(
        error_message(&StreamError::LaunchFailed("exec falhou".to_string())),
        "Erro ao iniciar stream: exec falhou"
    );
    assert_eq!(
        error_message(&StreamError::TerminationFailed("sem permissão".to_string())),
        "Erro ao parar stream: sem permissão"
    );
}
