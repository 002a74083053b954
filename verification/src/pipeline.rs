//! Pipeline description builder.
//!
//! A pipeline description is a fully-resolved, immutable value built once
//! per request. It is rendered to the textual topology form the host media
//! runtime accepts; the rendering is specified character by character, so a
//! description pins the exact topology handed to the runtime.

use vstd::prelude::*;
use vstd::string::StringExecFns;
use crate::encoder::EncoderTier;
use crate::encoder::spec_element_name;

verus! {

/// The decimal digits of `n`, most significant first.
pub open spec fn spec_u64_dec(n: int) -> Seq<char>
    recommends
        n >= 0,
    decreases n,
{
    if n < 10 {
        spec_digit_seq(n)
    } else {
        spec_u64_dec(n / 10) + spec_digit_seq(n % 10)
    }
}

/// The single decimal digit `d` as a one-character sequence.
pub open spec fn spec_digit_seq(d: int) -> Seq<char>
    recommends
        0 <= d <= 9,
{
    if d == 0 {
        "0"@
    } else if d == 1 {
        "1"@
    } else if d == 2 {
        "2"@
    } else if d == 3 {
        "3"@
    } else if d == 4 {
        "4"@
    } else if d == 5 {
        "5"@
    } else if d == 6 {
        "6"@
    } else if d == 7 {
        "7"@
    } else if d == 8 {
        "8"@
    } else {
        "9"@
    }
}

/// Appends the decimal digits of `n` to `out`.
fn push_dec(n: u64, out: &mut String)
    ensures
        final(out)@ == old(out)@ + spec_u64_dec(n as int),
    decreases n,
{
    if n >= 10 {
        push_dec(n / 10, out);
    }
    let d: u64 = n % 10;
    if d == 0 {
        out.append("0");
    } else if d == 1 {
        out.append("1");
    } else if d == 2 {
        out.append("2");
    } else if d == 3 {
        out.append("3");
    } else if d == 4 {
        out.append("4");
    } else if d == 5 {
        out.append("5");
    } else if d == 6 {
        out.append("6");
    } else if d == 7 {
        out.append("7");
    } else if d == 8 {
        out.append("8");
    } else {
        out.append("9");
    }
    proof {
        if n >= 10 {
            assert(out@ =~= old(out)@ + spec_u64_dec(n as int));
        }
    }
}

/// Renders `n` in decimal.
pub fn u64_to_dec(n: u64) -> (r: String)
    ensures
        r@ == spec_u64_dec(n as int),
{
    let mut out = String::new();
    push_dec(n, &mut out);
    proof {
        assert(out@ =~= spec_u64_dec(n as int));
    }
    out
}

/// The fully-resolved description of one recording pipeline: a capture
/// source that keeps the cursor visible, a caps filter enforcing the
/// zero-copy hint, and a branch point feeding (a) a bounded queue, the
/// selected encoder at a fixed target bitrate, a container multiplexer and a
/// file sink, and (b) a leaky single-buffer queue ending in a named
/// pull-based live tap. The tap's queue drops the oldest buffer under
/// backpressure, so snapshot reads never stall the recording branch.
#[derive(Clone, Debug)]
pub struct RecordingSpec {
    /// Whether the capture source keeps the cursor visible.
    pub capture_cursor: bool,
    /// The buffer-negotiation descriptor enforced right after capture.
    pub caps: String,
    /// The encoder tier the recording branch uses.
    pub encoder: EncoderTier,
    /// Buffer bound of the queue in front of the encoder.
    pub encode_queue_depth: u64,
    /// Target bitrate handed to the encoder, in kilobits per second.
    pub bitrate_kbps: u64,
    /// Where the multiplexed recording is written.
    pub sink_path: String,
    /// The name under which the live tap can be looked up later.
    pub tap_name: String,
    /// Buffer bound of the live tap; older buffers are dropped.
    pub tap_depth: u64,
}

/// The textual topology a recording description renders to.
pub open spec fn spec_render_recording(s: RecordingSpec) -> Seq<char> {
    "osxscreencapture capture-cursor="@ + (if s.capture_cursor {
        "true"@
    } else {
        "false"@
    }) + " ! "@ + s.caps@ + " ! tee name=t t. ! queue max-size-buffers="@ + spec_u64_dec(
        s.encode_queue_depth as int,
    ) + " ! "@ + spec_element_name(s.encoder) + " bitrate="@ + spec_u64_dec(
        s.bitrate_kbps as int,
    ) + " ! mp4mux ! filesink location="@ + s.sink_path@
        + " t. ! queue leaky=downstream ! appsink name="@ + s.tap_name@
        + " drop=true max-buffers="@ + spec_u64_dec(s.tap_depth as int) + " emit-signals=true"@
}

/// The name of the live tap every recording pipeline carries.
pub fn snapshot_tap_name() -> (r: &'static str)
    ensures
        r@ == "snapshot_sink"@,
{
    "snapshot_sink"
}

/// Builds the recording description for a selected tier, a platform hint and
/// a sink path. The queue bounds, the target bitrate and the tap name are
/// fixed by design.
pub fn build_recording_spec(tier: EncoderTier, zero_copy_hint: String, sink_path: String) -> (r:
    RecordingSpec)
    ensures
        r.capture_cursor == true,
        r.caps@ == zero_copy_hint@,
        r.encoder == tier,
        r.encode_queue_depth == 1,
        r.bitrate_kbps == 4000,
        r.sink_path@ == sink_path@,
        r.tap_name@ == "snapshot_sink"@,
        r.tap_depth == 1,
{
    RecordingSpec {
        capture_cursor: true,
        caps: zero_copy_hint,
        encoder: tier,
        encode_queue_depth: 1,
        bitrate_kbps: 4000,
        sink_path,
        tap_name: String::from_str(snapshot_tap_name()),
        tap_depth: 1,
    }
}

impl RecordingSpec {
    /// Renders the description to the textual topology form of the host
    /// runtime.
    pub fn render(&self) -> (r: String)
        ensures
            r@ == spec_render_recording(*self),
    {
        let mut out = String::from_str("osxscreencapture capture-cursor=");
        if self.capture_cursor {
            out.append("true");
        } else {
            out.append("false");
        }
        out.append(" ! ");
        out.append(self.caps.as_str());
        out.append(" ! tee name=t t. ! queue max-size-buffers=");
        push_dec(self.encode_queue_depth, &mut out);
        out.append(" ! ");
        out.append(self.encoder.element_name());
        out.append(" bitrate=");
        push_dec(self.bitrate_kbps, &mut out);
        out.append(" ! mp4mux ! filesink location=");
        out.append(self.sink_path.as_str());
        out.append(" t. ! queue leaky=downstream ! appsink name=");
        out.append(self.tap_name.as_str());
        out.append(" drop=true max-buffers=");
        push_dec(self.tap_depth, &mut out);
        out.append(" emit-signals=true");
        proof {
            assert(out@ =~= spec_render_recording(*self));
        }
        out
    }
}

/// The fully-resolved description of one thumbnail-extraction pipeline: a
/// file source, container and codec auto-detection with decode, colour-space
/// conversion, a scale to a fixed target height that preserves the aspect
/// ratio, a still-image encoder and a file sink.
#[derive(Clone, Debug)]
pub struct ThumbnailSpec {
    /// The stored video file to read.
    pub video_path: String,
    /// Where the still image is written.
    pub output_path: String,
    /// The fixed height the decoded frame is scaled to.
    pub target_height: u64,
}

/// The textual topology a thumbnail description renders to.
pub open spec fn spec_render_thumbnail(s: ThumbnailSpec) -> Seq<char> {
    "filesrc location="@ + s.video_path@
        + " ! decodebin ! videoconvert ! videoscale ! video/x-raw,height="@ + spec_u64_dec(
        s.target_height as int,
    ) + " ! jpegenc ! filesink location="@ + s.output_path@
}

/// Builds the thumbnail description for a stored video file and an output
/// path. The target height is fixed by design.
pub fn build_thumbnail_spec(video_path: String, output_path: String) -> (r: ThumbnailSpec)
    ensures
        r.video_path@ == video_path@,
        r.output_path@ == output_path@,
        r.target_height == 360,
{
    ThumbnailSpec { video_path, output_path, target_height: 360 }
}

impl ThumbnailSpec {
    /// Renders the description to the textual topology form of the host
    /// runtime.
    pub fn render(&self) -> (r: String)
        ensures
            r@ == spec_render_thumbnail(*self),
    {
        let mut out = String::from_str("filesrc location=");
        out.append(self.video_path.as_str());
        out.append(" ! decodebin ! videoconvert ! videoscale ! video/x-raw,height=");
        push_dec(self.target_height, &mut out);
        out.append(" ! jpegenc ! filesink location=");
        out.append(self.output_path.as_str());
        proof {
            assert(out@ =~= spec_render_thumbnail(*self));
        }
        out
    }
}

} // verus!
