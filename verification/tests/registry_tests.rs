use workahub_core::encoder::{EncoderProbe, EncoderTier};
use workahub_core::platform::Platform;
use workahub_core::registry::{interpret_snapshot, Registry};
use workahub_core::MediaError;

#[test]
fn counter_tracks_hardware_sessions_across_starts_and_stops() {
    let mut reg = Registry::new();
    assert_eq!(reg.active_hardware_streams(), 0);

    assert!(reg
        .commit_start("a".to_string(), EncoderTier::HardwareH264, 1)
        .is_ok());
    assert_eq!(reg.active_hardware_streams(), 1);

    assert!(reg
        .commit_start("b".to_string(), EncoderTier::SoftwareVp9, 2)
        .is_ok());
    assert_eq!(reg.active_hardware_streams(), 1);

    assert!(reg
        .commit_start("c".to_string(), EncoderTier::HardwareAv1, 3)
        .is_ok());
    assert_eq!(reg.active_hardware_streams(), 2);
    assert_eq!(reg.session_count(), 3);

    assert!(reg.stop("a").is_ok());
    assert_eq!(reg.active_hardware_streams(), 1);

    assert!(reg.stop("b").is_ok());
    assert_eq!(reg.active_hardware_streams(), 1);

    assert!(reg.stop("c").is_ok());
    assert_eq!(reg.active_hardware_streams(), 0);
    assert_eq!(reg.session_count(), 0);
}

#[test]
fn second_start_with_same_id_is_rejected() {
    let mut reg = Registry::new();
    assert!(reg
        .commit_start("rec".to_string(), EncoderTier::HardwareHevc, 10)
        .is_ok());
    let second = reg.commit_start("rec".to_string(), EncoderTier::HardwareHevc, 11);
    assert_eq!(second, Err(MediaError::DuplicateSession));
    let active = reg.list_active();
    assert_eq!(active, vec!["rec".to_string()]);
    assert_eq!(reg.active_hardware_streams(), 1);
}

#[test]
fn stop_of_unknown_id_reports_session_not_found() {
    let mut reg = Registry::new();
    let r = reg.stop("never-started");
    assert!(matches!(r, Err(MediaError::SessionNotFound)));
}

#[test]
fn stopping_a_hardware_session_twice_releases_the_slot_once() {
    let mut reg = Registry::new();
    assert!(reg
        .commit_start("hw".to_string(), EncoderTier::HardwareAv1, 5)
        .is_ok());
    assert_eq!(reg.active_hardware_streams(), 1);

    let first = reg.stop("hw");
    assert!(first.is_ok());
    let stopped = first.unwrap();
    assert_eq!(stopped.id, "hw".to_string());
    assert_eq!(stopped.handle, 5);
    assert!(stopped.uses_hardware_slot);
    assert_eq!(reg.active_hardware_streams(), 0);

    let second = reg.stop("hw");
    assert!(matches!(second, Err(MediaError::SessionNotFound)));
    assert_eq!(reg.active_hardware_streams(), 0);
}

#[test]
fn stopped_software_session_leaves_counter_alone() {
    let mut reg = Registry::new();
    assert!(reg
        .commit_start("hw".to_string(), EncoderTier::HardwareH264, 1)
        .is_ok());
    assert!(reg
        .commit_start("sw".to_string(), EncoderTier::SoftwareFallback, 2)
        .is_ok());
    assert_eq!(reg.active_hardware_streams(), 1);
    let stopped = reg.stop("sw").unwrap();
    assert!(!stopped.uses_hardware_slot);
    assert_eq!(reg.active_hardware_streams(), 1);
}

#[test]
fn snapshot_source_of_unknown_id_reports_session_not_found() {
    let reg = Registry::new();
    assert_eq!(reg.snapshot_source("nobody"), Err(MediaError::SessionNotFound));
}

#[test]
fn snapshot_source_returns_the_session_handle() {
    let mut reg = Registry::new();
    assert!(reg
        .commit_start("live".to_string(), EncoderTier::SoftwareVp8, 42)
        .is_ok());
    assert_eq!(reg.snapshot_source("live"), Ok(42));
}

#[test]
fn snapshot_without_a_queued_buffer_is_unavailable_not_a_hang() {
    assert_eq!(
        interpret_snapshot(None),
        Err(MediaError::SnapshotUnavailable)
    );
}

#[test]
fn snapshot_with_a_queued_buffer_returns_its_bytes() {
    let frame = vec![1u8, 2, 3, 4];
    assert_eq!(interpret_snapshot(Some(frame.clone())), Ok(frame));
}

#[test]
fn plan_start_rejects_a_duplicate_id() {
    let mut reg = Registry::new();
    assert!(reg
        .commit_start("taken".to_string(), EncoderTier::SoftwareH264, 9)
        .is_ok());
    let plan = reg.plan_start(
        "taken",
        &EncoderProbe::none_available(),
        Platform::Generic,
        "/tmp/out.mp4".to_string(),
    );
    assert!(matches!(plan, Err(MediaError::DuplicateSession)));
}

#[test]
fn plan_start_selects_tier_and_builds_the_description() {
    let reg = Registry::new();
    let probe = EncoderProbe {
        hardware_av1: false,
        hardware_hevc: false,
        hardware_h264: false,
        software_vp9: false,
        software_vp8: false,
        software_h264: true,
    };
    let plan = reg
        .plan_start("fresh", &probe, Platform::MacOs, "/tmp/rec.mp4".to_string())
        .unwrap();
    assert_eq!(plan.tier, EncoderTier::SoftwareH264);
    assert!(!plan.capacity_warning);
    assert_eq!(plan.description.encoder, EncoderTier::SoftwareH264);
    assert!(plan.description.capture_cursor);
    assert_eq!(plan.description.caps, "video/x-raw(memory:CVPixelBuffer)");
    assert_eq!(plan.description.sink_path, "/tmp/rec.mp4");
    assert_eq!(plan.description.bitrate_kbps, 4000);
    assert_eq!(plan.description.encode_queue_depth, 1);
    assert_eq!(plan.description.tap_name, "snapshot_sink");
    assert_eq!(plan.description.tap_depth, 1);
}

#[test]
fn exhausted_capacity_only_warns_and_never_rejects() {
    let mut reg = Registry::with_max_hardware_streams(1);
    assert_eq!(reg.max_hardware_streams(), 1);
    assert!(reg
        .commit_start("first".to_string(), EncoderTier::HardwareAv1, 1)
        .is_ok());
    let probe = EncoderProbe {
        hardware_av1: true,
        hardware_hevc: false,
        hardware_h264: false,
        software_vp9: false,
        software_vp8: false,
        software_h264: false,
    };
    let plan = reg
        .plan_start("second", &probe, Platform::Generic, "/tmp/b.mp4".to_string())
        .unwrap();
    assert!(plan.capacity_warning);
    assert!(reg
        .commit_start("second".to_string(), plan.tier, 2)
        .is_ok());
    assert_eq!(reg.active_hardware_streams(), 2);
}

#[test]
fn software_tier_never_triggers_the_capacity_warning() {
    let reg = Registry::with_max_hardware_streams(0);
    let plan = reg
        .plan_start(
            "sw",
            &EncoderProbe::none_available(),
            Platform::Generic,
            "/tmp/c.mp4".to_string(),
        )
        .unwrap();
    assert_eq!(plan.tier, EncoderTier::SoftwareFallback);
    assert!(!plan.capacity_warning);
}

#[test]
fn list_active_reports_registered_ids_in_order() {
    let mut reg = Registry::new();
    assert!(reg
        .commit_start("one".to_string(), EncoderTier::SoftwareVp9, 1)
        .is_ok());
    assert!(reg
        .commit_start("two".to_string(), EncoderTier::SoftwareVp8, 2)
        .is_ok());
    assert_eq!(reg.list_active(), vec!["one".to_string(), "two".to_string()]);
    assert!(reg.contains_session("one"));
    assert!(!reg.contains_session("three"));
}

#[test]
fn a_stopped_id_can_be_started_again() {
    let mut reg = Registry::new();
    assert!(reg
        .commit_start("reuse".to_string(), EncoderTier::HardwareH264, 1)
        .is_ok());
    assert!(reg.stop("reuse").is_ok());
    assert_eq!(reg.active_hardware_streams(), 0);
    assert!(reg
        .commit_start("reuse".to_string(), EncoderTier::HardwareH264, 2)
        .is_ok());
    assert_eq!(reg.active_hardware_streams(), 1);
    assert_eq!(reg.snapshot_source("reuse"), Ok(2));
}

#[test]
fn an_id_is_not_confused_with_its_prefix_or_extension() {
    let mut reg = Registry::new();
    assert!(reg
        .commit_start("rec".to_string(), EncoderTier::SoftwareVp9, 1)
        .is_ok());
    assert!(!reg.contains_session("re"));
    assert!(!reg.contains_session("recs"));
    assert!(reg.contains_session("rec"));
    assert!(matches!(reg.stop("re"), Err(MediaError::SessionNotFound)));
    assert!(reg.stop("rec").is_ok());
}

#[test]
fn non_ascii_ids_are_compared_by_their_characters() {
    let mut reg = Registry::new();
    assert!(reg
        .commit_start("séance-Ω".to_string(), EncoderTier::SoftwareVp8, 3)
        .is_ok());
    assert!(reg.contains_session("séance-Ω"));
    assert!(!reg.contains_session("seance-Ω"));
    let second = reg.commit_start("séance-Ω".to_string(), EncoderTier::SoftwareVp8, 4);
    assert_eq!(second, Err(MediaError::DuplicateSession));
}

#[test]
fn error_descriptions_are_stable() {
    assert_eq!(
        MediaError::DuplicateSession.describe(),
        "session id already in use"
    );
    assert_eq!(MediaError::SessionNotFound.describe(), "session not found");
    assert_eq!(
        MediaError::SnapshotUnavailable.describe(),
        "no snapshot buffer available"
    );
    assert_eq!(
        MediaError::PipelineConstructionFailed.describe(),
        "pipeline construction failed"
    );
    assert_eq!(
        MediaError::StateTransitionFailed.describe(),
        "pipeline state transition failed"
    );
    assert_eq!(
        MediaError::ExtractionTimeout.describe(),
        "frame extraction timed out"
    );
    assert_eq!(
        MediaError::ExtractionError.describe(),
        "frame extraction failed"
    );
}
