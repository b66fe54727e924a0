use lfs_stt::config::{ChatChannel, Config, ConfigError};
use lfs_stt::config::LogLevel;
use lfs_stt::event::InsimEvent;

fn channel(display: &str, prefix: &str) -> ChatChannel {
    ChatChannel { display: display.to_owned(), prefix: prefix.to_owned() }
}

fn valid_config() -> Config {
    Config {
        btn_id_offset: 10,
        debug_log_level: LogLevel::Info,
        chat_channels: vec![channel("Team", "/t "), channel("All", "/a ")],
        debug_audio_resampling: false,
        insim_host: "127.0.0.1".to_owned(),
        insim_port: "29999".to_owned(),
        message_preview_timeout_secs: 5,
        model_path: "models/small.en.bin".to_owned(),
        recording_timeout_secs: 30,
        ui_offset_left: 80,
        ui_offset_top: 120,
        ui_scale: 4,
        use_gpu: true,
    }
}

fn validation_msg(r: Result<(), ConfigError>) -> String {
    match r {
        Err(ConfigError::ValidationError(m)) => m,
        other => panic!("expected a validation error, got {:?}", other),
    }
}

#[test]
fn accepts_valid_config() {
    assert!(valid_config().validate().is_ok());
}

#[test]
fn rejects_empty_chat_channels() {
    let mut c = valid_config();
    c.chat_channels = vec![];
    assert_eq!(validation_msg(c.validate()), "Result<(), String>");
}

#[test]
fn rejects_zero_ui_scale() {
    let mut c = valid_config();
    c.ui_scale = 0;
    assert_eq!(validation_msg(c.validate()), "UI scale must be greater than 0.");
}

#[test]
fn rejects_large_ui_offset_top() {
    let mut c = valid_config();
    c.ui_offset_top = 201;
    assert_eq!(validation_msg(c.validate()), "UI offset top must be between 0 and 200.");
}

#[test]
fn rejects_large_ui_offset_left() {
    let mut c = valid_config();
    c.ui_offset_left = 255;
    assert_eq!(validation_msg(c.validate()), "UI offset left must be between 0 and 200.");
}

#[test]
fn rejects_empty_model_path() {
    let mut c = valid_config();
    c.model_path = String::new();
    assert_eq!(validation_msg(c.validate()), "Model path cannot be empty.");
}

#[test]
fn rejects_large_btn_id_offset() {
    let mut c = valid_config();
    c.btn_id_offset = 231;
    assert_eq!(validation_msg(c.validate()), "Button ID offset must be between 0 and 230.");
}

#[test]
fn rejects_empty_channel_display_name() {
    let mut c = valid_config();
    c.chat_channels = vec![channel("Team", "/t "), channel("", "/a ")];
    assert_eq!(validation_msg(c.validate()), "Chat channel display name cannot be empty.");
}

#[test]
fn boundary_offsets_are_accepted() {
    let mut c = valid_config();
    c.ui_offset_top = 200;
    c.ui_offset_left = 200;
    c.btn_id_offset = 230;
    c.ui_scale = 1;
    assert!(c.validate().is_ok());
}

#[test]
fn chat_channels_compare_by_prefix() {
    assert!(channel("Team", "/t ") == channel("Crew", "/t "));
    assert!(channel("Team", "/t ") != channel("Team", "/a "));
}

#[test]
fn parses_talk_command() {
    assert_eq!(InsimEvent::from_string("stt talk".to_owned()), Some(InsimEvent::ToggleRecording));
}

#[test]
fn parses_accept_command() {
    assert_eq!(InsimEvent::from_string("stt accept".to_owned()), Some(InsimEvent::AcceptMessage));
}

#[test]
fn ignores_other_chat() {
    assert_eq!(InsimEvent::from_string("hello".to_owned()), None);
    assert_eq!(InsimEvent::from_string("stt talk ".to_owned()), None);
    assert_eq!(InsimEvent::from_string(String::new()), None);
}
