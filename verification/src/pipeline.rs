//! The request-processing pipeline's decisions, combined: given what the
//! transport and the codec engine report about one request, compute
//! everything the response needs — the resize plan, the output format,
//! the encode quality, the cache metadata, and the `Vary` marker.

use crate::config::Configuration;
use crate::format::{negotiate_format, negotiated_format_spec, ImageFormat, ResizeImageFormat};
use crate::headers::{fresh_cache_directive, CacheDirective};
use crate::resize::{resize_dims, ResizePlan};
use vstd::prelude::*;

verus! {

/// The options a resize request carries. Fractional target dimensions are
/// rounded to the nearest integer before they reach the pipeline.
pub struct ResizeOptions {
    /// The source URL.
    pub source: String,
    /// The requested width bound, if any.
    pub width: Option<u32>,
    /// The requested height bound, if any.
    pub height: Option<u32>,
    /// The encode-quality override, if any.
    pub quality: Option<u8>,
    /// The output-format selector, if any.
    pub format: Option<ResizeImageFormat>,
}

/// Everything the response depends on, decided in one place.
pub struct ResponsePlan {
    /// The final dimensions and the resize-call variant.
    pub resize: ResizePlan,
    /// The negotiated output format.
    pub format: ImageFormat,
    /// The encode quality handed to the codec engine.
    pub quality: u8,
    /// The cache metadata of the response.
    pub cache: CacheDirective,
    /// Whether the response must vary on the Accept header.
    pub vary_accept: bool,
}

/// The encode quality of a request: its override, or the configured
/// default.
pub open spec fn effective_quality(quality: Option<u8>, default_quality: u8) -> u8 {
    match quality {
        Some(q) => q,
        None => default_quality,
    }
}

/// Decide one request: the resize plan for the source's intrinsic
/// dimensions, the negotiated format, the effective quality, and the
/// jittered cache window anchored at `now`.
pub fn plan_response(
    options: &ResizeOptions,
    config: &Configuration,
    width0: u32,
    height0: u32,
    multi_frame: bool,
    webp_ok: bool,
    source_format: ImageFormat,
    now: u64,
) -> (p: ResponsePlan)
    requires
        width0 > 0,
        height0 > 0,
        now + config.cache_expiration * 3600 + config.cache_jitter <= u64::MAX,
    ensures
        p.resize.width as int == resize_dims(
            width0 as int,
            height0 as int,
            options.width,
            options.height,
        ).0,
        p.resize.height as int == resize_dims(
            width0 as int,
            height0 as int,
            options.width,
            options.height,
        ).1,
        p.resize.mode is Skip <==> (p.resize.width == width0 as u64 && p.resize.height
            == height0 as u64),
        !(p.resize.mode is Skip) ==> (p.resize.mode is FitScene <==> multi_frame),
        p.format == negotiated_format_spec(options.format, webp_ok, source_format),
        p.vary_accept == (options.format == Some(ResizeImageFormat::Auto)),
        p.quality == effective_quality(options.quality, config.default_quality),
        p.cache.last_modified == now,
        p.cache.wf(),
        config.cache_expiration * 3600 <= p.cache.max_age <= config.cache_expiration * 3600
            + config.cache_jitter,
        config.cache_jitter == 0 ==> p.cache.max_age == config.cache_expiration * 3600,
{
    let resize = ResizePlan::compute(width0, height0, options.width, options.height, multi_frame);
    let choice = negotiate_format(options.format, webp_ok, source_format);
    let quality = match options.quality {
        Some(q) => q,
        None => config.default_quality,
    };
    let cache = fresh_cache_directive(now, config.cache_expiration, config.cache_jitter);
    ResponsePlan { resize, format: choice.format, quality, cache, vary_accept: choice.vary }
}

} // verus!
