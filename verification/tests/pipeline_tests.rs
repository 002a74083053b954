use workahub_core::encoder::EncoderTier;
use workahub_core::pipeline::{
    build_recording_spec, build_thumbnail_spec, snapshot_tap_name, u64_to_dec,
};
use workahub_core::platform::{zero_copy_hint, Platform};

#[test]
fn decimal_rendering_is_exact() {
    assert_eq!(u64_to_dec(0), "0");
    assert_eq!(u64_to_dec(7), "7");
    assert_eq!(u64_to_dec(10), "10");
    assert_eq!(u64_to_dec(360), "360");
    assert_eq!(u64_to_dec(4000), "4000");
    assert_eq!(u64_to_dec(u64::MAX), "18446744073709551615");
}

#[test]
fn zero_copy_hint_names_the_gpu_memory_domain_on_macos() {
    assert_eq!(
        zero_copy_hint(Platform::MacOs),
        "video/x-raw(memory:CVPixelBuffer)"
    );
}

#[test]
fn zero_copy_hint_is_generic_elsewhere() {
    assert_eq!(zero_copy_hint(Platform::Generic), "video/x-raw");
}

#[test]
fn tap_name_is_fixed() {
    assert_eq!(snapshot_tap_name(), "snapshot_sink");
}

#[test]
fn recording_description_renders_the_exact_topology() {
    let spec = build_recording_spec(
        EncoderTier::SoftwareH264,
        zero_copy_hint(Platform::Generic),
        "/tmp/out.mp4".to_string(),
    );
    let expected = "osxscreencapture capture-cursor=true ! video/x-raw ! tee name=t t. ! queue max-size-buffers=1 ! x264enc bitrate=4000 ! mp4mux ! filesink location=/tmp/out.mp4 t. ! queue leaky=downstream ! appsink name=snapshot_sink drop=true max-buffers=1 emit-signals=true";
    assert_eq!(spec.render(), expected);
}

#[test]
fn hardware_recording_description_uses_the_gpu_caps_and_element() {
    let spec = build_recording_spec(
        EncoderTier::HardwareHevc,
        zero_copy_hint(Platform::MacOs),
        "/captures/s1.mp4".to_string(),
    );
    let expected = "osxscreencapture capture-cursor=true ! video/x-raw(memory:CVPixelBuffer) ! tee name=t t. ! queue max-size-buffers=1 ! vtenc_hevc bitrate=4000 ! mp4mux ! filesink location=/captures/s1.mp4 t. ! queue leaky=downstream ! appsink name=snapshot_sink drop=true max-buffers=1 emit-signals=true";
    assert_eq!(spec.render(), expected);
}

#[test]
fn recording_builder_fixes_the_tunables() {
    let spec = build_recording_spec(
        EncoderTier::HardwareAv1,
        "video/x-raw".to_string(),
        "/a.mp4".to_string(),
    );
    assert!(spec.capture_cursor);
    assert_eq!(spec.encoder, EncoderTier::HardwareAv1);
    assert_eq!(spec.encode_queue_depth, 1);
    assert_eq!(spec.bitrate_kbps, 4000);
    assert_eq!(spec.tap_name, "snapshot_sink");
    assert_eq!(spec.tap_depth, 1);
}

#[test]
fn thumbnail_description_renders_the_exact_topology() {
    let spec = build_thumbnail_spec("/videos/in.mp4".to_string(), "/videos/out.jpg".to_string());
    assert_eq!(spec.target_height, 360);
    let expected = "filesrc location=/videos/in.mp4 ! decodebin ! videoconvert ! videoscale ! video/x-raw,height=360 ! jpegenc ! filesink location=/videos/out.jpg";
    assert_eq!(spec.render(), expected);
}
