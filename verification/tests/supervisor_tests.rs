use restream::config::PauseConfig;
use restream::frame::{AudFormat, StreamConfig, VidFormat};
use restream::supervisor::{
    frame_interval_ms, pause_config_same, stream_config_changed, timer_expired, IterationTasks,
    AUD_FORMAT_WAIT_MS, WARMUP_MS,
};

#[test]
fn frame_interval_follows_fps() {
    assert_eq!(frame_interval_ms(30), 33);
    assert_eq!(frame_interval_ms(15), 66);
    assert_eq!(frame_interval_ms(25), 40);
    // Rates under five are paced as five.
    assert_eq!(frame_interval_ms(0), 200);
    assert_eq!(frame_interval_ms(4), 200);
    assert_eq!(frame_interval_ms(5), 200);
}

#[test]
fn config_reload_on_fps_change() {
    // Mid-stream the rate changes from 15 to 30 fps: the supervisor
    // iteration ends, and the rebuilt pipelines pace at 33 ms.
    let last = StreamConfig {
        vid_format: VidFormat::H264,
        aud_format: AudFormat::Aac,
        fps: 15,
        codec_params: vec![],
    };
    let mut new = last.clone();
    assert!(!stream_config_changed(&last, &new));
    new.fps = 30;
    assert!(stream_config_changed(&last, &new));
    assert_eq!(frame_interval_ms(last.fps), 66);
    assert_eq!(frame_interval_ms(new.fps), 33);
}

#[test]
fn format_change_also_reloads() {
    let last = StreamConfig {
        vid_format: VidFormat::H264,
        aud_format: AudFormat::Unknown,
        fps: 30,
        codec_params: vec![],
    };
    let mut new = last.clone();
    new.vid_format = VidFormat::H265;
    assert!(stream_config_changed(&last, &new));
    new = last.clone();
    new.aud_format = AudFormat::Aac;
    assert!(stream_config_changed(&last, &new));
}

#[test]
fn codec_params_change_also_reloads() {
    // A renegotiation that changes only the opaque codec parameters
    // still restarts the iteration.
    let last = StreamConfig {
        vid_format: VidFormat::H264,
        aud_format: AudFormat::Aac,
        fps: 30,
        codec_params: vec![0x67, 0x42],
    };
    let mut new = last.clone();
    assert!(!stream_config_changed(&last, &new));
    new.codec_params = vec![0x67, 0x64];
    assert!(stream_config_changed(&last, &new));
}

#[test]
fn pause_change_detected() {
    let a = PauseConfig {
        on_motion: true,
        on_disconnect: false,
        motion_timeout_ms: 1000,
        mode: "none".to_owned(),
    };
    let same = PauseConfig {
        on_motion: true,
        on_disconnect: false,
        motion_timeout_ms: 1000,
        mode: "none".to_owned(),
    };
    assert!(pause_config_same(&a, &same));
    let mut b = same.clone();
    b.on_disconnect = true;
    assert!(!pause_config_same(&a, &b));
    let mut c = same.clone();
    c.mode = "black".to_owned();
    assert!(!pause_config_same(&a, &c));
}

#[test]
fn cancellation_leaves_no_task_live() {
    // One iteration spawns its watchers, the warm-up task and the
    // stream run; cancelling and joining leaves nothing live.
    let mut tasks = IterationTasks::new();
    for _ in 0..6 {
        tasks.spawn();
    }
    assert_eq!(tasks.live, 6);
    tasks.cancel();
    tasks.join_all();
    assert_eq!(tasks.live, 0);
    assert!(tasks.cancelled);
}

#[test]
fn warmup_and_audio_windows() {
    assert_eq!(WARMUP_MS, 30_000);
    assert_eq!(AUD_FORMAT_WAIT_MS, 1_000);
    assert!(!timer_expired(29_999, 0, WARMUP_MS));
    assert!(timer_expired(30_000, 0, WARMUP_MS));
    assert!(!timer_expired(500, 0, AUD_FORMAT_WAIT_MS));
    assert!(timer_expired(1_500, 500, AUD_FORMAT_WAIT_MS));
}

#[test]
fn stream_readiness() {
    let mut cfg = StreamConfig {
        vid_format: VidFormat::Unknown,
        aud_format: AudFormat::Unknown,
        fps: 30,
        codec_params: vec![],
    };
    assert!(!cfg.vid_ready());
    assert!(!cfg.aud_ready());
    cfg.vid_format = VidFormat::H265;
    assert!(cfg.vid_ready());
    cfg.aud_format = AudFormat::Adpcm;
    assert!(cfg.aud_ready());
}
