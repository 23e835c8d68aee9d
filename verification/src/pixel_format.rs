use vstd::prelude::*;

verus! {

/// What a caller asks of the pixel format, as far as this backend reads it;
/// `None` leaves a field to the backend.
#[derive(Clone, Debug)]
pub struct PixelFormatRequirements {
    pub hardware_accelerated: Option<bool>,
    pub color_bits: Option<u8>,
    pub alpha_bits: Option<u8>,
    pub depth_bits: Option<u8>,
    pub stencil_bits: Option<u8>,
    pub double_buffer: Option<bool>,
    pub multisampling: Option<u16>,
    pub stereoscopy: bool,
    pub srgb: bool,
}

/// The pixel format that a context was created with.
#[derive(Clone, Copy, Debug, PartialEq, Eq)]
pub struct PixelFormat {
    pub hardware_accelerated: bool,
    pub color_bits: u8,
    pub alpha_bits: u8,
    pub depth_bits: u8,
    pub stencil_bits: u8,
    pub stereoscopy: bool,
    pub double_buffer: bool,
    pub multisampling: Option<u16>,
    pub srgb: bool,
}

/// `o`'s value, or `d` where it holds none.
pub open spec fn or_default<T>(o: Option<T>, d: T) -> T {
    match o {
        Some(v) => v,
        None => d,
    }
}

/// The pixel format that a context gets for `reqs`: each field that `reqs`
/// fixes is taken as it is; an open field gets the backend's default
/// (hardware acceleration, 24 colour bits, 8 alpha bits, 24 depth bits,
/// 8 stencil bits, double buffering).
pub open spec fn pixel_format_for(reqs: PixelFormatRequirements) -> PixelFormat {
    PixelFormat {
        hardware_accelerated: or_default(reqs.hardware_accelerated, true),
        color_bits: or_default(reqs.color_bits, 24u8),
        alpha_bits: or_default(reqs.alpha_bits, 8u8),
        depth_bits: or_default(reqs.depth_bits, 24u8),
        double_buffer: or_default(reqs.double_buffer, true),
        multisampling: reqs.multisampling,
        srgb: reqs.srgb,
        stencil_bits: or_default(reqs.stencil_bits, 8u8),
        stereoscopy: reqs.stereoscopy,
    }
}

impl PixelFormat {
    /// The pixel format that a context gets for `reqs`.
    pub fn from_requirements(reqs: &PixelFormatRequirements) -> (pf: PixelFormat)
        ensures
            pf == pixel_format_for(*reqs),
    {
        PixelFormat {
            hardware_accelerated: reqs.hardware_accelerated.unwrap_or(true),
            color_bits: reqs.color_bits.unwrap_or(24),
            alpha_bits: reqs.alpha_bits.unwrap_or(8),
            depth_bits: reqs.depth_bits.unwrap_or(24),
            double_buffer: reqs.double_buffer.unwrap_or(true),
            multisampling: reqs.multisampling,
            srgb: reqs.srgb,
            stencil_bits: reqs.stencil_bits.unwrap_or(8),
            stereoscopy: reqs.stereoscopy,
        }
    }
}

/// The pixel format of a context assembled on a window that the caller
/// supplies: it does not depend on any requirement.
pub open spec fn raw_pixel_format() -> PixelFormat {
    PixelFormat {
        hardware_accelerated: true,
        color_bits: 24u8,
        alpha_bits: 8u8,
        depth_bits: 24u8,
        double_buffer: true,
        multisampling: None,
        srgb: true,
        stencil_bits: 8u8,
        stereoscopy: false,
    }
}

impl PixelFormat {
    /// The pixel format of a context assembled on a window that the caller supplies.
    pub fn raw_context_format() -> (pf: PixelFormat)
        ensures
            pf == raw_pixel_format(),
    {
        PixelFormat {
            hardware_accelerated: true,
            color_bits: 24,
            alpha_bits: 8,
            depth_bits: 24,
            double_buffer: true,
            multisampling: None,
            srgb: true,
            stencil_bits: 8,
            stereoscopy: false,
        }
    }
}

/// A requirement that fixes every field of a pixel format is met exactly:
/// deriving a format from the requirements that name each field of `pf`
/// gives `pf` back.
pub proof fn lemma_fully_specified_requirements_met(pf: PixelFormat)
    ensures
        pixel_format_for(
            PixelFormatRequirements {
                hardware_accelerated: Some(pf.hardware_accelerated),
                color_bits: Some(pf.color_bits),
                alpha_bits: Some(pf.alpha_bits),
                depth_bits: Some(pf.depth_bits),
                stencil_bits: Some(pf.stencil_bits),
                double_buffer: Some(pf.double_buffer),
                multisampling: pf.multisampling,
                stereoscopy: pf.stereoscopy,
                srgb: pf.srgb,
            },
        ) == pf,
{
}

/// Every field that the requirements fix is honoured, and every field that
/// they leave open gets the backend's default.
pub proof fn lemma_requirements_honoured(reqs: PixelFormatRequirements)
    ensures
        ({
            let pf = pixel_format_for(reqs);
            &&& reqs.hardware_accelerated matches Some(v) ==> pf.hardware_accelerated == v
            &&& reqs.hardware_accelerated is None ==> pf.hardware_accelerated
            &&& reqs.color_bits matches Some(v) ==> pf.color_bits == v
            &&& reqs.color_bits is None ==> pf.color_bits == 24
            &&& reqs.alpha_bits matches Some(v) ==> pf.alpha_bits == v
            &&& reqs.alpha_bits is None ==> pf.alpha_bits == 8
            &&& reqs.depth_bits matches Some(v) ==> pf.depth_bits == v
            &&& reqs.depth_bits is None ==> pf.depth_bits == 24
            &&& reqs.stencil_bits matches Some(v) ==> pf.stencil_bits == v
            &&& reqs.stencil_bits is None ==> pf.stencil_bits == 8
            &&& reqs.double_buffer matches Some(v) ==> pf.double_buffer == v
            &&& reqs.double_buffer is None ==> pf.double_buffer
            &&& pf.multisampling == reqs.multisampling
            &&& pf.stereoscopy == reqs.stereoscopy
            &&& pf.srgb == reqs.srgb
        }),
{
}

} // verus!
