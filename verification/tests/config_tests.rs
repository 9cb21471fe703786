use restream::config::{
    default_bind_addr, default_bind_port, default_buffer_size, default_certificate,
    default_channel_id, default_maxenc, default_motion_timeout_ms, default_mqtt,
    default_on_disconnect, default_on_motion, default_pause, default_pause_mode, default_smoothing,
    default_stream, default_strict, default_tls_client_auth, default_tokio_console,
    default_update_time, is_valid_maxenc, is_valid_pause_mode, is_valid_stream,
    is_valid_tls_auth, validate_camera_config, validate_mqtt_config, validate_username,
    CameraConfig, ConfigError, MqttConfig, PauseConfig,
};

#[test]
fn defaults_match_documented_values() {
    assert!(default_mqtt().is_none());
    assert_eq!(default_maxenc(), "Aes");
    assert_eq!(default_bind_addr(), "0.0.0.0");
    assert_eq!(default_bind_port(), 8554);
    assert_eq!(default_stream(), "both");
    assert!(default_certificate().is_none());
    assert_eq!(default_tls_client_auth(), "none");
    assert!(!default_tokio_console());
    assert_eq!(default_channel_id(), 0);
    assert!(!default_update_time());
    assert_eq!(default_motion_timeout_ms(), 1000);
    assert!(!default_on_disconnect());
    assert!(!default_on_motion());
    assert_eq!(default_pause_mode(), "none");
    assert!(!default_strict());
    assert!(default_smoothing());
    assert_eq!(default_buffer_size(), 100);
    let pause = default_pause();
    assert!(!pause.on_motion && !pause.on_disconnect);
    assert_eq!(pause.motion_timeout_ms, 1000);
    assert_eq!(pause.mode, "none");
}

#[test]
fn stream_sources_accepted() {
    for s in ["mainStream", "subStream", "externStream", "both", "all"] {
        assert!(is_valid_stream(s));
    }
    assert!(!is_valid_stream("mainstream"));
    assert!(!is_valid_stream(""));
    assert!(!is_valid_stream("bothall"));
}

#[test]
fn tls_auth_modes_accepted() {
    for s in ["none", "request", "require"] {
        assert!(is_valid_tls_auth(s));
    }
    assert!(!is_valid_tls_auth("Required"));
}

#[test]
fn pause_modes_accepted() {
    for s in ["black", "still", "test", "none"] {
        assert!(is_valid_pause_mode(s));
    }
    assert!(!is_valid_pause_mode("freeze"));
}

#[test]
fn maxenc_values_accepted() {
    for s in [
        "none", "None", "aes", "AES", "Aes", "aEs", "bcencrypt", "BcEncrypt", "BCENCRYPT",
    ] {
        assert!(is_valid_maxenc(s), "{s} should be accepted");
    }
    assert!(!is_valid_maxenc("nOne"));
    assert!(!is_valid_maxenc("NONE"));
    assert!(!is_valid_maxenc("des"));
    assert!(!is_valid_maxenc(""));
}

#[test]
fn username_rules() {
    assert_eq!(validate_username("alice"), Ok(()));
    assert_eq!(validate_username(""), Err(ConfigError::EmptyUsername));
    assert_eq!(validate_username("   "), Err(ConfigError::EmptyUsername));
    assert_eq!(validate_username("\t\n"), Err(ConfigError::EmptyUsername));
    // Blankness follows what trimming removes: all of Unicode
    // White_Space, not just the ASCII four.
    assert_eq!(validate_username("\u{000B}"), Err(ConfigError::EmptyUsername));
    assert_eq!(validate_username("\u{000C}"), Err(ConfigError::EmptyUsername));
    assert_eq!(validate_username("\u{0085}"), Err(ConfigError::EmptyUsername));
    assert_eq!(validate_username("\u{00A0}"), Err(ConfigError::EmptyUsername));
    assert_eq!(
        validate_username("\u{2000}\u{200A}\u{3000}"),
        Err(ConfigError::EmptyUsername)
    );
    assert_eq!(
        validate_username("\u{2028}\u{2029}\u{202F}\u{205F}\u{1680}"),
        Err(ConfigError::EmptyUsername)
    );
    // Joiners and zero-width characters are not whitespace.
    assert_eq!(validate_username("\u{200B}"), Ok(()));
    assert_eq!(
        validate_username("anyone"),
        Err(ConfigError::ReservedUsername)
    );
    assert_eq!(
        validate_username("anonymous"),
        Err(ConfigError::ReservedUsername)
    );
    // A reserved word with extra whitespace is not the reserved name.
    assert_eq!(validate_username(" anyone"), Ok(()));
}

fn mqtt(ca: Option<&str>, client_auth: bool) -> MqttConfig {
    MqttConfig {
        broker_addr: "127.0.0.1".to_owned(),
        port: 1883,
        credentials: None,
        ca: ca.map(|s| s.to_owned()),
        client_auth: if client_auth {
            Some(("cert".to_owned(), "key".to_owned()))
        } else {
            None
        },
        discovery: None,
    }
}

#[test]
fn mqtt_ca_and_client_auth_exclusive() {
    assert_eq!(validate_mqtt_config(&mqtt(None, false)), Ok(()));
    assert_eq!(validate_mqtt_config(&mqtt(Some("ca"), false)), Ok(()));
    assert_eq!(validate_mqtt_config(&mqtt(None, true)), Ok(()));
    assert_eq!(
        validate_mqtt_config(&mqtt(Some("ca"), true)),
        Err(ConfigError::MqttCaAndClientAuth)
    );
}

fn camera() -> CameraConfig {
    CameraConfig {
        name: "driveway".to_owned(),
        camera_addr: Some("192.168.1.10".to_owned()),
        camera_uid: None,
        username: "admin".to_owned(),
        password: None,
        stream: default_stream(),
        permitted_users: None,
        channel_id: default_channel_id(),
        mqtt: None,
        pause: default_pause(),
        max_encryption: default_maxenc(),
        strict: default_strict(),
        update_time: default_update_time(),
        buffer_size: default_buffer_size(),
        use_smoothing: default_smoothing(),
    }
}

#[test]
fn camera_with_defaults_validates() {
    assert_eq!(validate_camera_config(&camera()), Ok(()));
}

#[test]
fn camera_needs_addr_or_uid() {
    let mut c = camera();
    c.camera_addr = None;
    c.camera_uid = None;
    assert_eq!(
        validate_camera_config(&c),
        Err(ConfigError::MissingCameraIdentity)
    );
    c.camera_uid = Some("UID123".to_owned());
    assert_eq!(validate_camera_config(&c), Ok(()));
}

#[test]
fn camera_rejects_bad_fields() {
    let mut c = camera();
    c.stream = "sideStream".to_owned();
    assert_eq!(validate_camera_config(&c), Err(ConfigError::InvalidStream));

    let mut c = camera();
    c.channel_id = 32;
    assert_eq!(validate_camera_config(&c), Err(ConfigError::InvalidChannel));

    let mut c = camera();
    c.pause = PauseConfig {
        mode: "frozen".to_owned(),
        ..default_pause()
    };
    assert_eq!(
        validate_camera_config(&c),
        Err(ConfigError::InvalidPauseMode)
    );

    let mut c = camera();
    c.max_encryption = "rot13".to_owned();
    assert_eq!(
        validate_camera_config(&c),
        Err(ConfigError::InvalidMaxEncryption)
    );

    let mut c = camera();
    c.buffer_size = 9;
    assert_eq!(
        validate_camera_config(&c),
        Err(ConfigError::InvalidBufferSize)
    );
    c.buffer_size = 501;
    assert_eq!(
        validate_camera_config(&c),
        Err(ConfigError::InvalidBufferSize)
    );
    c.buffer_size = 10;
    assert_eq!(validate_camera_config(&c), Ok(()));
    c.buffer_size = 500;
    assert_eq!(validate_camera_config(&c), Ok(()));

    let mut c = camera();
    c.mqtt = Some(mqtt(Some("ca"), true));
    assert_eq!(
        validate_camera_config(&c),
        Err(ConfigError::MqttCaAndClientAuth)
    );
}
