//! The presentation surface's configuration: how it is first chosen from what
//! the surface supports, and how it follows the window's size.

use vstd::prelude::*;
use wgpu::{CompositeAlphaMode, PresentMode, SurfaceCapabilities, TextureFormat, TextureUsages};

verus! {

/// Pixel format of a texture, as `wgpu` names it. Carried through unread.
#[verifier::external_type_specification]
#[verifier::external_body]
pub struct ExTextureFormat(TextureFormat);

/// Presentation mode of a surface, as `wgpu` names it. Carried through unread.
#[verifier::external_type_specification]
#[verifier::external_body]
pub struct ExPresentMode(PresentMode);

/// Alpha compositing mode of a surface, as `wgpu` names it. Carried through unread.
#[verifier::external_type_specification]
#[verifier::external_body]
pub struct ExCompositeAlphaMode(CompositeAlphaMode);

/// Set of texture usage flags of `wgpu`.
#[verifier::external_type_specification]
#[verifier::external_body]
pub struct ExTextureUsages(TextureUsages);

/// What a surface supports on an adapter: `wgpu`'s record of four public fields.
#[verifier::external_type_specification]
pub struct ExSurfaceCapabilities(SurfaceCapabilities);

/// `wgpu`'s surface configuration, a record of public fields.
#[verifier::external_type_specification]
#[verifier::reject_recursive_types(V)]
pub struct ExSurfaceConfiguration<V>(wgpu::wgt::SurfaceConfiguration<V>);

/// What `TextureFormat::is_srgb` answers for `format`.
pub uninterp spec fn format_is_srgb(format: TextureFormat) -> bool;

/// What `TextureUsages::bits` answers for `usages`.
pub uninterp spec fn usage_bits(usages: TextureUsages) -> u32;

/// `TextureFormat::is_srgb`: whether the format stores sRGB-encoded colour.
/// It depends on the format alone.
pub assume_specification[ TextureFormat::is_srgb ](format: &TextureFormat) -> (srgb: bool)
    ensures
        srgb == format_is_srgb(*format),
;

/// Bits of the usage set that allows drawing into a texture and nothing
/// else: the one flag at bit 4.
pub const RENDER_ATTACHMENT_BITS: u32 = 16;

/// The constant `TextureUsages::RENDER_ATTACHMENT`, whose only flag is bit 4.
#[verifier::external_body]
fn render_attachment() -> (usages: TextureUsages)
    ensures
        usage_bits(usages) == RENDER_ATTACHMENT_BITS,
{
    TextureUsages::RENDER_ATTACHMENT
}

/// Frames that may be in flight between acquiring and presenting.
pub const FRAME_LATENCY: u32 = 2;

/// Whether `position` is where the preferred format stands among formats of
/// which `srgb` says, one by one, whether they are sRGB: at the first sRGB
/// format, or in front when no format is sRGB.
pub open spec fn is_preferred(srgb: Seq<bool>, position: int) -> bool {
    &&& 0 <= position < srgb.len()
    &&& srgb[position] ==> forall|j: int| 0 <= j < position ==> !srgb[j]
    &&& !srgb[position] ==> position == 0 && forall|j: int| 0 <= j < srgb.len() ==> !srgb[j]
}

/// The position of the preferred format, where there is a format at all.
pub open spec fn preferred_position(srgb: Seq<bool>) -> int {
    choose|position: int| is_preferred(srgb, position)
}

/// For each of `formats`, in order, whether it is sRGB.
pub open spec fn srgb_flags(formats: Seq<TextureFormat>) -> Seq<bool> {
    Seq::new(formats.len(), |i: int| format_is_srgb(formats[i]))
}

/// The format a surface is configured with: the first sRGB format it
/// supports, or its first format when none is sRGB.
pub open spec fn preferred_format(formats: Seq<TextureFormat>) -> TextureFormat
    recommends
        formats.len() > 0,
{
    formats[preferred_position(srgb_flags(formats))]
}

/// At most one position is the preferred one.
pub proof fn lemma_preferred_unique(srgb: Seq<bool>, p: int, q: int)
    requires
        is_preferred(srgb, p),
        is_preferred(srgb, q),
    ensures
        p == q,
        p == preferred_position(srgb),
{
    let r = preferred_position(srgb);
    assert(is_preferred(srgb, r));
    if p < q {
        assert(!srgb[p]);
    } else if q < p {
        assert(!srgb[q]);
    }
    if p < r {
        assert(!srgb[p]);
    } else if r < p {
        assert(!srgb[r]);
    }
}

/// The preferred format is one of the supported formats. It is sRGB exactly
/// when some supported format is, and then no format before it is sRGB;
/// when none is, it is the first format.
pub proof fn lemma_preferred_format(formats: Seq<TextureFormat>, position: int)
    requires
        is_preferred(srgb_flags(formats), position),
    ensures
        preferred_format(formats) == formats[position],
        format_is_srgb(preferred_format(formats)) <==> exists|i: int|
            0 <= i < formats.len() && format_is_srgb(#[trigger] formats[i]),
        format_is_srgb(preferred_format(formats)) ==> forall|j: int|
            0 <= j < position ==> !format_is_srgb(#[trigger] formats[j]),
        !format_is_srgb(preferred_format(formats)) ==> preferred_format(formats) == formats[0],
{
    let srgb = srgb_flags(formats);
    lemma_preferred_unique(srgb, position, position);
    assert(srgb[position] == format_is_srgb(formats[position]));
    if format_is_srgb(formats[position]) {
        assert forall|j: int| 0 <= j < position implies !format_is_srgb(#[trigger] formats[j]) by {
            assert(!srgb[j]);
        }
    } else {
        assert forall|i: int| 0 <= i < formats.len() implies !format_is_srgb(
            #[trigger] formats[i],
        ) by {
            assert(!srgb[i]);
        }
    }
}

/// Finds the position of the preferred format from what is known of each
/// format, in order: whether it is sRGB. Without formats there is none.
pub fn find_preferred(srgb: &Vec<bool>) -> (position: Option<usize>)
    ensures
        srgb@.len() == 0 ==> position is None,
        srgb@.len() > 0 ==> position is Some && is_preferred(srgb@, position.unwrap() as int)
            && position.unwrap() == preferred_position(srgb@),
{
    if srgb.len() == 0 {
        return None;
    }
    let mut i: usize = 0;
    while i < srgb.len()
        invariant
            i <= srgb@.len(),
            forall|j: int| 0 <= j < i ==> !srgb@[j],
        decreases srgb@.len() - i,
    {
        if srgb[i] {
            proof {
                lemma_preferred_unique(srgb@, i as int, i as int);
            }
            return Some(i);
        }
        i += 1;
    }
    proof {
        lemma_preferred_unique(srgb@, 0, 0);
    }
    Some(0)
}

/// Chooses the surface's pixel format among those it supports; there is
/// none to choose where it supports none.
pub fn choose_format(formats: &Vec<TextureFormat>) -> (format: Option<TextureFormat>)
    ensures
        format == if formats@.len() > 0 {
            Some(preferred_format(formats@))
        } else {
            None
        },
{
    let mut srgb: Vec<bool> = Vec::new();
    let mut i: usize = 0;
    while i < formats.len()
        invariant
            i <= formats@.len(),
            srgb@.len() == i,
            forall|j: int| 0 <= j < i ==> srgb@[j] == format_is_srgb(formats@[j]),
        decreases formats@.len() - i,
    {
        srgb.push(formats[i].is_srgb());
        i += 1;
    }
    assert(srgb@ == srgb_flags(formats@));
    match find_preferred(&srgb) {
        Some(position) => Some(formats[position]),
        None => None,
    }
}

/// Why no surface could be set up on the graphics device.
#[derive(Clone, Copy, PartialEq, Eq, Debug, Structural)]
pub enum DeviceError {
    /// The surface supports no pixel format, no presentation mode or no
    /// alpha mode on the adapter: the two do not go together.
    IncompatibleSurface,
}

/// Whether a surface with these capabilities can be configured at all: it
/// supports a pixel format, a presentation mode and an alpha mode.
pub open spec fn is_compatible(capabilities: SurfaceCapabilities) -> bool {
    &&& capabilities.formats@.len() > 0
    &&& capabilities.present_modes@.len() > 0
    &&& capabilities.alpha_modes@.len() > 0
}

/// The configuration a surface starts with: the preferred pixel format, the
/// window's size, the first supported presentation and alpha modes, use as
/// a render target only, `FRAME_LATENCY` frames in flight and no extra view
/// formats.
pub open spec fn is_initial_config(
    config: wgpu::SurfaceConfiguration,
    capabilities: SurfaceCapabilities,
    width: u32,
    height: u32,
) -> bool {
    &&& config.format == preferred_format(capabilities.formats@)
    &&& config.width == width
    &&& config.height == height
    &&& config.present_mode == capabilities.present_modes@[0]
    &&& config.alpha_mode == capabilities.alpha_modes@[0]
    &&& config.desired_maximum_frame_latency == FRAME_LATENCY
    &&& usage_bits(config.usage) == RENDER_ATTACHMENT_BITS
    &&& config.view_formats@.len() == 0
}

/// The window-bound surface, as far as its configuration goes.
pub struct WindowSurface {
    pub config: wgpu::SurfaceConfiguration,
}

impl WindowSurface {
    /// Configures a surface of `width` by `height` pixels from what it
    /// supports, and fails where it supports no format, no presentation mode
    /// or no alpha mode.
    pub fn new(capabilities: &SurfaceCapabilities, width: u32, height: u32) -> (result: Result<
        WindowSurface,
        DeviceError,
    >)
        ensures
            result is Ok <==> is_compatible(*capabilities),
            result matches Ok(surface) ==> is_initial_config(
                surface.config,
                *capabilities,
                width,
                height,
            ),
            result matches Err(error) ==> error == DeviceError::IncompatibleSurface,
    {
        if capabilities.present_modes.len() == 0 || capabilities.alpha_modes.len() == 0 {
            return Err(DeviceError::IncompatibleSurface);
        }
        match choose_format(&capabilities.formats) {
            None => Err(DeviceError::IncompatibleSurface),
            Some(format) => Ok(
                WindowSurface {
                    config: wgpu::SurfaceConfiguration {
                        alpha_mode: capabilities.alpha_modes[0],
                        desired_maximum_frame_latency: FRAME_LATENCY,
                        format,
                        height,
                        width,
                        present_mode: capabilities.present_modes[0],
                        usage: render_attachment(),
                        view_formats: Vec::new(),
                    },
                },
            ),
        }
    }

    /// This surface with its width and height replaced, all else kept.
    pub open spec fn with_size(self, width: u32, height: u32) -> WindowSurface {
        WindowSurface { config: wgpu::SurfaceConfiguration { width, height, ..self.config } }
    }

    /// Takes over the window's new size. A size with a zero side is not taken
    /// over and leaves the configuration as it was. The result says whether
    /// the surface has to be configured anew with `self.config`.
    pub fn resize(&mut self, width: u32, height: u32) -> (reconfigure: bool)
        ensures
            reconfigure == (width > 0 && height > 0),
            reconfigure ==> *final(self) == old(self).with_size(width, height),
            !reconfigure ==> *final(self) == *old(self),
    {
        if width > 0 && height > 0 {
            self.config.width = width;
            self.config.height = height;
            true
        } else {
            false
        }
    }

    /// Width and height of the viewport the camera projects onto.
    pub fn viewport(&self) -> (size: (usize, usize))
        ensures
            size.0 == self.config.width,
            size.1 == self.config.height,
    {
        (self.config.width as usize, self.config.height as usize)
    }
}

} // verus!
