//! Encoder catalog and selector.
//!
//! `EncoderTier` is the closed, priority-ordered enumeration of encoding
//! strategies. Selection walks the tiers from most to least preferred and
//! returns the first tier whose backing element the host media runtime
//! reports as loadable; the software fallback tier is always available, so
//! selection is a total function and never fails.

use vstd::prelude::*;

verus! {

/// Encoding strategies, from most to least preferred.
#[derive(Clone, Copy, Debug, PartialEq, Eq, Structural)]
pub enum EncoderTier {
    HardwareAv1,
    HardwareHevc,
    HardwareH264,
    SoftwareVp9,
    SoftwareVp8,
    SoftwareH264,
    /// Motion-JPEG; assumed loadable on every host.
    SoftwareFallback,
}

/// Position of a tier in the fixed priority order: 0 is the most preferred.
pub open spec fn tier_rank(t: EncoderTier) -> int {
    match t {
        EncoderTier::HardwareAv1 => 0,
        EncoderTier::HardwareHevc => 1,
        EncoderTier::HardwareH264 => 2,
        EncoderTier::SoftwareVp9 => 3,
        EncoderTier::SoftwareVp8 => 4,
        EncoderTier::SoftwareH264 => 5,
        EncoderTier::SoftwareFallback => 6,
    }
}

/// Whether a tier runs on dedicated media-codec silicon.
pub open spec fn spec_is_hardware(t: EncoderTier) -> bool {
    match t {
        EncoderTier::HardwareAv1 => true,
        EncoderTier::HardwareHevc => true,
        EncoderTier::HardwareH264 => true,
        _ => false,
    }
}

/// The processing-element identifier that backs each tier in the host media
/// runtime.
pub open spec fn spec_element_name(t: EncoderTier) -> Seq<char> {
    match t {
        EncoderTier::HardwareAv1 => "vtenc_av1"@,
        EncoderTier::HardwareHevc => "vtenc_hevc"@,
        EncoderTier::HardwareH264 => "vtenc_h264"@,
        EncoderTier::SoftwareVp9 => "vp9enc"@,
        EncoderTier::SoftwareVp8 => "vp8enc"@,
        EncoderTier::SoftwareH264 => "x264enc"@,
        EncoderTier::SoftwareFallback => "jpegenc"@,
    }
}

impl EncoderTier {
    /// The named processing element this tier maps to.
    pub fn element_name(&self) -> (r: &'static str)
        ensures
            r@ == spec_element_name(*self),
    {
        match self {
            EncoderTier::HardwareAv1 => "vtenc_av1",
            EncoderTier::HardwareHevc => "vtenc_hevc",
            EncoderTier::HardwareH264 => "vtenc_h264",
            EncoderTier::SoftwareVp9 => "vp9enc",
            EncoderTier::SoftwareVp8 => "vp8enc",
            EncoderTier::SoftwareH264 => "x264enc",
            EncoderTier::SoftwareFallback => "jpegenc",
        }
    }

    /// Whether a session encoding at this tier occupies a hardware stream
    /// slot.
    pub fn is_hardware(&self) -> (r: bool)
        ensures
            r == spec_is_hardware(*self),
    {
        match self {
            EncoderTier::HardwareAv1 => true,
            EncoderTier::HardwareHevc => true,
            EncoderTier::HardwareH264 => true,
            _ => false,
        }
    }
}

/// The tiers in their fixed priority order, most preferred first. The
/// availability probe walks this list when it asks the host runtime which
/// elements are loadable.
pub fn tiers_in_priority_order() -> (r: Vec<EncoderTier>)
    ensures
        r@.len() == 7,
        forall|i: int| 0 <= i < 7 ==> tier_rank(r@[i]) == i,
{
    let mut v: Vec<EncoderTier> = Vec::new();
    v.push(EncoderTier::HardwareAv1);
    v.push(EncoderTier::HardwareHevc);
    v.push(EncoderTier::HardwareH264);
    v.push(EncoderTier::SoftwareVp9);
    v.push(EncoderTier::SoftwareVp8);
    v.push(EncoderTier::SoftwareH264);
    v.push(EncoderTier::SoftwareFallback);
    v
}

/// The availability of each tier's backing element on the current host, as
/// reported by the host runtime's element probe. The fallback tier has no
/// flag: it is available by definition.
#[derive(Clone, Copy, Debug, PartialEq, Eq, Structural)]
pub struct EncoderProbe {
    pub hardware_av1: bool,
    pub hardware_hevc: bool,
    pub hardware_h264: bool,
    pub software_vp9: bool,
    pub software_vp8: bool,
    pub software_h264: bool,
}

impl EncoderProbe {
    /// A probe that reports every element as missing; only the fallback tier
    /// remains selectable.
    pub fn none_available() -> (r: EncoderProbe)
        ensures
            forall|t: EncoderTier| spec_tier_available(r, t) <==> t is SoftwareFallback,
    {
        EncoderProbe {
            hardware_av1: false,
            hardware_hevc: false,
            hardware_h264: false,
            software_vp9: false,
            software_vp8: false,
            software_h264: false,
        }
    }
}

/// Whether a tier's backing element is available under a given probe result.
/// The fallback tier is never reported unavailable.
pub open spec fn spec_tier_available(p: EncoderProbe, t: EncoderTier) -> bool {
    match t {
        EncoderTier::HardwareAv1 => p.hardware_av1,
        EncoderTier::HardwareHevc => p.hardware_hevc,
        EncoderTier::HardwareH264 => p.hardware_h264,
        EncoderTier::SoftwareVp9 => p.software_vp9,
        EncoderTier::SoftwareVp8 => p.software_vp8,
        EncoderTier::SoftwareH264 => p.software_h264,
        EncoderTier::SoftwareFallback => true,
    }
}

/// The tier that selection returns for a given probe result: the highest
/// priority tier whose element is available.
pub open spec fn spec_best_tier(p: EncoderProbe) -> EncoderTier {
    if p.hardware_av1 {
        EncoderTier::HardwareAv1
    } else if p.hardware_hevc {
        EncoderTier::HardwareHevc
    } else if p.hardware_h264 {
        EncoderTier::HardwareH264
    } else if p.software_vp9 {
        EncoderTier::SoftwareVp9
    } else if p.software_vp8 {
        EncoderTier::SoftwareVp8
    } else if p.software_h264 {
        EncoderTier::SoftwareH264
    } else {
        EncoderTier::SoftwareFallback
    }
}

/// Selects the best usable encoder tier for a probe result. Deterministic in
/// the probe, total, and never an error: the returned tier is available, and
/// every strictly better tier is unavailable.
pub fn select_best_encoder(probe: &EncoderProbe) -> (r: EncoderTier)
    ensures
        r == spec_best_tier(*probe),
        spec_tier_available(*probe, r),
        forall|t: EncoderTier| tier_rank(t) < tier_rank(r) ==> !spec_tier_available(*probe, t),
{
    proof {
        lemma_selection_sound(*probe);
    }
    if probe.hardware_av1 {
        EncoderTier::HardwareAv1
    } else if probe.hardware_hevc {
        EncoderTier::HardwareHevc
    } else if probe.hardware_h264 {
        EncoderTier::HardwareH264
    } else if probe.software_vp9 {
        EncoderTier::SoftwareVp9
    } else if probe.software_vp8 {
        EncoderTier::SoftwareVp8
    } else if probe.software_h264 {
        EncoderTier::SoftwareH264
    } else {
        EncoderTier::SoftwareFallback
    }
}

/// Selection always returns an available tier, and no strictly better tier is
/// available: the invariant of the encoder catalog.
pub proof fn lemma_selection_sound(p: EncoderProbe)
    ensures
        spec_tier_available(p, spec_best_tier(p)),
        forall|t: EncoderTier| tier_rank(t) < tier_rank(spec_best_tier(p))
            ==> !spec_tier_available(p, t),
{
    assert forall|t: EncoderTier| tier_rank(t) < tier_rank(spec_best_tier(p))
        implies !spec_tier_available(p, t) by {
        match t {
            EncoderTier::HardwareAv1 => {},
            EncoderTier::HardwareHevc => {},
            EncoderTier::HardwareH264 => {},
            EncoderTier::SoftwareVp9 => {},
            EncoderTier::SoftwareVp8 => {},
            EncoderTier::SoftwareH264 => {},
            EncoderTier::SoftwareFallback => {},
        }
    }
}

/// The fallback tier is selectable under every probe result, so selection is
/// total.
pub proof fn lemma_fallback_always_available(p: EncoderProbe)
    ensures
        spec_tier_available(p, EncoderTier::SoftwareFallback),
{
}

/// When no other tier's element is available, selection returns the fallback
/// tier rather than failing.
pub proof fn lemma_fallback_when_none_available(p: EncoderProbe)
    requires
        forall|t: EncoderTier| !(t is SoftwareFallback) ==> !spec_tier_available(p, t),
    ensures
        spec_best_tier(p) is SoftwareFallback,
{
    assert(!spec_tier_available(p, EncoderTier::HardwareAv1));
    assert(!spec_tier_available(p, EncoderTier::HardwareHevc));
    assert(!spec_tier_available(p, EncoderTier::HardwareH264));
    assert(!spec_tier_available(p, EncoderTier::SoftwareVp9));
    assert(!spec_tier_available(p, EncoderTier::SoftwareVp8));
    assert(!spec_tier_available(p, EncoderTier::SoftwareH264));
}

} // verus!
