//! Swapchain negotiation: from the capability set the platform reports
//! for a surface, choose a concrete format, present mode, extent,
//! composite alpha and image count, and assemble the creation
//! configuration. The embedding program queries the capability set
//! afresh for every negotiation, issues the native create call from the
//! returned configuration, and destroys every image view before the
//! swapchain, as the teardown plan orders them.

use vstd::prelude::*;

verus! {

/// The `VK_FORMAT_B8G8R8A8_SRGB` pixel format code.
pub const FORMAT_B8G8R8A8_SRGB: u32 = 50;

/// The `VK_COLOR_SPACE_SRGB_NONLINEAR_KHR` color space code.
pub const COLOR_SPACE_SRGB_NONLINEAR: u32 = 0;

/// The `VK_PRESENT_MODE_IMMEDIATE_KHR` present mode code.
pub const PRESENT_MODE_IMMEDIATE: u32 = 0;

/// The `VK_PRESENT_MODE_MAILBOX_KHR` present mode code.
pub const PRESENT_MODE_MAILBOX: u32 = 1;

/// The `VK_PRESENT_MODE_FIFO_KHR` present mode code.
pub const PRESENT_MODE_FIFO: u32 = 2;

/// The `VK_PRESENT_MODE_FIFO_RELAXED_KHR` present mode code.
pub const PRESENT_MODE_FIFO_RELAXED: u32 = 3;

/// The `VK_COMPOSITE_ALPHA_OPAQUE_BIT_KHR` flag.
pub const COMPOSITE_ALPHA_OPAQUE: u32 = 1;

/// The `VK_COMPOSITE_ALPHA_PRE_MULTIPLIED_BIT_KHR` flag.
pub const COMPOSITE_ALPHA_PRE_MULTIPLIED: u32 = 2;

/// The `VK_COMPOSITE_ALPHA_POST_MULTIPLIED_BIT_KHR` flag.
pub const COMPOSITE_ALPHA_POST_MULTIPLIED: u32 = 4;

/// The `VK_COMPOSITE_ALPHA_INHERIT_BIT_KHR` flag.
pub const COMPOSITE_ALPHA_INHERIT: u32 = 8;

/// The `VK_IMAGE_USAGE_COLOR_ATTACHMENT_BIT` flag.
pub const IMAGE_USAGE_COLOR_ATTACHMENT: u32 = 16;

/// The all-ones sentinel a platform reports as its current extent when
/// the swapchain is free to choose an extent within the advertised
/// bounds.
pub const EXTENT_UNDEFINED: u32 = 0xFFFF_FFFF;

/// A width and height in pixels.
#[derive(Debug, Clone, Copy, PartialEq, Eq, Structural)]
pub struct Extent2D {
    pub width: u32,
    pub height: u32,
}

/// One supported surface format: a pixel format paired with a color
/// space.
#[derive(Debug, Clone, Copy, PartialEq, Eq, Structural)]
pub struct SurfaceFormat {
    pub format: u32,
    pub color_space: u32,
}

/// Which composite-alpha modes the platform supports for the surface.
#[derive(Debug, Clone, Copy, PartialEq, Eq, Structural)]
pub struct CompositeAlphaSupport {
    pub opaque: bool,
    pub pre_multiplied: bool,
    pub post_multiplied: bool,
    pub inherit: bool,
}

/// The surface capabilities the platform reports: image count bounds
/// (`max_image_count == 0` means unbounded), the current and permitted
/// extents, the current transform (passed through verbatim), and the
/// supported composite-alpha modes.
#[derive(Debug, Clone, Copy, PartialEq, Eq, Structural)]
pub struct SurfaceCapabilities {
    pub min_image_count: u32,
    pub max_image_count: u32,
    pub current_extent: Extent2D,
    pub min_image_extent: Extent2D,
    pub max_image_extent: Extent2D,
    pub current_transform: u32,
    pub supported_composite_alpha: CompositeAlphaSupport,
}

/// Image sharing across queue families: exclusive ownership, or
/// concurrent access by the listed families.
#[derive(Debug, Clone, Copy, PartialEq, Eq, Structural)]
pub enum SharingMode {
    Exclusive,
    Concurrent,
}

/// What the platform reports of the selected physical device's surface
/// support, queried fresh at every swapchain creation: capabilities,
/// supported formats, supported present modes.
pub struct SwapChainSupportDetail {
    pub capabilities: SurfaceCapabilities,
    pub formats: Vec<SurfaceFormat>,
    pub present_modes: Vec<u32>,
}

/// The format the negotiation looks for first: 8-bit BGRA in the
/// non-linear sRGB color space.
pub open spec fn preferred_format(f: SurfaceFormat) -> bool {
    f.format == FORMAT_B8G8R8A8_SRGB && f.color_space == COLOR_SPACE_SRGB_NONLINEAR
}

/// The negotiated surface format: (BGRA8, sRGB-nonlinear) when the
/// platform supports it, else the first format the platform reports.
pub open spec fn spec_chosen_format(formats: Seq<SurfaceFormat>) -> SurfaceFormat
    recommends
        formats.len() > 0,
{
    if exists|i: int| 0 <= i < formats.len() && preferred_format(formats[i]) {
        SurfaceFormat { format: FORMAT_B8G8R8A8_SRGB, color_space: COLOR_SPACE_SRGB_NONLINEAR }
    } else {
        formats[0]
    }
}

/// The negotiated present mode: MAILBOX when supported, else FIFO, which
/// every conformant platform supports.
pub open spec fn spec_chosen_present_mode(modes: Seq<u32>) -> u32 {
    if modes.contains(PRESENT_MODE_MAILBOX) {
        PRESENT_MODE_MAILBOX
    } else {
        PRESENT_MODE_FIFO
    }
}

/// `v` clamped into the inclusive range `lo ..= hi` (the upper bound
/// winning when the range is empty).
pub open spec fn spec_clamped(v: u32, lo: u32, hi: u32) -> u32 {
    let raised = if v < lo {
        lo
    } else {
        v
    };
    if raised > hi {
        hi
    } else {
        raised
    }
}

/// The negotiated extent: the platform's current extent verbatim unless
/// it is the undefined sentinel, in which case the requested width and
/// height are clamped into the advertised bounds, each axis on its own.
pub open spec fn spec_chosen_extent(
    capabilities: SurfaceCapabilities,
    width: u32,
    height: u32,
) -> Extent2D {
    if capabilities.current_extent.width != EXTENT_UNDEFINED {
        capabilities.current_extent
    } else {
        Extent2D {
            width: spec_clamped(
                width,
                capabilities.min_image_extent.width,
                capabilities.max_image_extent.width,
            ),
            height: spec_clamped(
                height,
                capabilities.min_image_extent.height,
                capabilities.max_image_extent.height,
            ),
        }
    }
}

/// The negotiated composite alpha: pre-multiplied, then post-multiplied,
/// then inherit, then the universally supported opaque fallback.
pub open spec fn spec_chosen_composite_alpha(support: CompositeAlphaSupport) -> u32 {
    if support.pre_multiplied {
        COMPOSITE_ALPHA_PRE_MULTIPLIED
    } else if support.post_multiplied {
        COMPOSITE_ALPHA_POST_MULTIPLIED
    } else if support.inherit {
        COMPOSITE_ALPHA_INHERIT
    } else {
        COMPOSITE_ALPHA_OPAQUE
    }
}

/// The negotiated image count: one more than the minimum, clamped down
/// to the maximum when the platform advertises one (zero meaning no
/// maximum).
pub open spec fn spec_image_count(capabilities: SurfaceCapabilities) -> u32
    recommends
        capabilities.min_image_count < u32::MAX,
{
    let requested = (capabilities.min_image_count + 1) as u32;
    if capabilities.max_image_count > 0 && requested > capabilities.max_image_count {
        capabilities.max_image_count
    } else {
        requested
    }
}

impl SwapChainSupportDetail {
    /// Scan the supported formats for (BGRA8, sRGB-nonlinear); fall back
    /// to the first reported format.
    pub fn choose_swapchain_format(&self) -> (r: SurfaceFormat)
        requires
            self.formats@.len() > 0,
        ensures
            r == spec_chosen_format(self.formats@),
    {
        let n = self.formats.len();
        let mut i: usize = 0;
        while i < n
            invariant
                i <= n,
                n == self.formats@.len(),
                forall|j: int| 0 <= j < i ==> !preferred_format(#[trigger] self.formats@[j]),
            decreases n - i,
        {
            let available_format = self.formats[i];
            if available_format.format == FORMAT_B8G8R8A8_SRGB && available_format.color_space
                == COLOR_SPACE_SRGB_NONLINEAR {
                assert(preferred_format(self.formats@[i as int]));
                return available_format;
            }
            i += 1;
        }
        self.formats[0]
    }

    /// Prefer the non-blocking MAILBOX present mode; fall back to FIFO.
    pub fn choose_swapchain_present_mode(&self) -> (r: u32)
        ensures
            r == spec_chosen_present_mode(self.present_modes@),
    {
        let n = self.present_modes.len();
        let mut i: usize = 0;
        while i < n
            invariant
                i <= n,
                n == self.present_modes@.len(),
                forall|j: int| 0 <= j < i ==> self.present_modes@[j] != PRESENT_MODE_MAILBOX,
            decreases n - i,
        {
            if self.present_modes[i] == PRESENT_MODE_MAILBOX {
                assert(self.present_modes@.contains(PRESENT_MODE_MAILBOX));
                return PRESENT_MODE_MAILBOX;
            }
            i += 1;
        }
        assert(!self.present_modes@.contains(PRESENT_MODE_MAILBOX));
        PRESENT_MODE_FIFO
    }

    /// Take the platform's current extent verbatim, unless it is the
    /// undefined sentinel; then clamp the requested size into the
    /// advertised bounds, each axis independently.
    pub fn choose_swapchain_extent(&self, width: u32, height: u32) -> (r: Extent2D)
        ensures
            r == spec_chosen_extent(self.capabilities, width, height),
    {
        if self.capabilities.current_extent.width != EXTENT_UNDEFINED {
            self.capabilities.current_extent
        } else {
            Extent2D {
                width: clamped(
                    width,
                    self.capabilities.min_image_extent.width,
                    self.capabilities.max_image_extent.width,
                ),
                height: clamped(
                    height,
                    self.capabilities.min_image_extent.height,
                    self.capabilities.max_image_extent.height,
                ),
            }
        }
    }

    /// Prefer the blending-capable composite-alpha modes over the opaque
    /// fallback.
    pub fn choose_composite_alpha(&self) -> (r: u32)
        ensures
            r == spec_chosen_composite_alpha(self.capabilities.supported_composite_alpha),
    {
        if self.capabilities.supported_composite_alpha.pre_multiplied {
            COMPOSITE_ALPHA_PRE_MULTIPLIED
        } else if self.capabilities.supported_composite_alpha.post_multiplied {
            COMPOSITE_ALPHA_POST_MULTIPLIED
        } else if self.capabilities.supported_composite_alpha.inherit {
            COMPOSITE_ALPHA_INHERIT
        } else {
            COMPOSITE_ALPHA_OPAQUE
        }
    }

    /// Request one image more than the minimum, clamped down to the
    /// advertised maximum when there is one.
    pub fn choose_image_count(&self) -> (r: u32)
        requires
            self.capabilities.min_image_count < u32::MAX,
        ensures
            r == spec_image_count(self.capabilities),
    {
        let image_count = self.capabilities.min_image_count + 1;
        if self.capabilities.max_image_count > 0 && image_count
            > self.capabilities.max_image_count {
            self.capabilities.max_image_count
        } else {
            image_count
        }
    }
}

/// `v` clamped into the inclusive range `lo ..= hi` (the upper bound
/// winning when the range is empty).
pub fn clamped(v: u32, lo: u32, hi: u32) -> (r: u32)
    ensures
        r == spec_clamped(v, lo, hi),
{
    let raised = if v < lo {
        lo
    } else {
        v
    };
    if raised > hi {
        hi
    } else {
        raised
    }
}

/// The creation configuration the negotiation produces: exactly the
/// fields of the native swapchain create call. The image array layer
/// count is always one, clipping is always enabled, and no previous
/// swapchain is ever named: a resize takes a full teardown and a fresh
/// negotiation.
#[derive(Debug, Clone)]
pub struct SwapChainConfig {
    pub min_image_count: u32,
    pub image_format: u32,
    pub image_color_space: u32,
    pub image_extent: Extent2D,
    pub image_array_layers: u32,
    pub image_usage: u32,
    pub image_sharing_mode: SharingMode,
    pub queue_family_indices: Vec<u32>,
    pub pre_transform: u32,
    pub composite_alpha: u32,
    pub present_mode: u32,
    pub clipped: bool,
}

/// The negotiated swapchain: the chosen format and extent the rest of
/// the engine reads, and the full creation configuration. The native
/// swapchain, its images and their views are the embedding program's;
/// every view must be destroyed before the swapchain, the swapchain
/// before the logical device.
pub struct VulkanSwapChain {
    pub format: u32,
    pub extent: Extent2D,
    pub config: SwapChainConfig,
}

/// `r` is the swapchain that negotiating against `support` for a
/// `width` by `height` surface with the given sharing mode produces:
/// every field of the configuration is pinned to its negotiated or
/// constant value.
pub open spec fn swapchain_matches(
    r: VulkanSwapChain,
    support: SwapChainSupportDetail,
    width: u32,
    height: u32,
    sharing: SharingMode,
    indices: Seq<u32>,
) -> bool {
    let fmt = spec_chosen_format(support.formats@);
    let extent = spec_chosen_extent(support.capabilities, width, height);
    &&& r.format == fmt.format
    &&& r.extent == extent
    &&& r.config.min_image_count == spec_image_count(support.capabilities)
    &&& r.config.image_format == fmt.format
    &&& r.config.image_color_space == fmt.color_space
    &&& r.config.image_extent == extent
    &&& r.config.image_array_layers == 1
    &&& r.config.image_usage == IMAGE_USAGE_COLOR_ATTACHMENT
    &&& r.config.image_sharing_mode == sharing
    &&& r.config.queue_family_indices@ == indices
    &&& r.config.pre_transform == support.capabilities.current_transform
    &&& r.config.composite_alpha == spec_chosen_composite_alpha(
        support.capabilities.supported_composite_alpha,
    )
    &&& r.config.present_mode == spec_chosen_present_mode(support.present_modes@)
    &&& r.config.clipped
}

impl VulkanSwapChain {
    /// Run the four negotiations against the reported support and
    /// assemble the creation configuration. The caller decides the
    /// sharing mode and the family index list; the platform must report
    /// at least one surface format, and its minimum image count must
    /// leave room to request one more.
    pub fn new(
        support: &SwapChainSupportDetail,
        width: u32,
        height: u32,
        image_sharing_mode: SharingMode,
        queue_family_indices: &Vec<u32>,
    ) -> (r: VulkanSwapChain)
        requires
            support.formats@.len() > 0,
            support.capabilities.min_image_count < u32::MAX,
        ensures
            swapchain_matches(
                r,
                *support,
                width,
                height,
                image_sharing_mode,
                queue_family_indices@,
            ),
    {
        let surface_format = support.choose_swapchain_format();
        let present_mode = support.choose_swapchain_present_mode();
        let extent = support.choose_swapchain_extent(width, height);
        let image_count = support.choose_image_count();
        let composite_alpha = support.choose_composite_alpha();

        let mut indices: Vec<u32> = Vec::new();
        let n = queue_family_indices.len();
        let mut i: usize = 0;
        while i < n
            invariant
                i <= n,
                n == queue_family_indices@.len(),
                indices@ == queue_family_indices@.take(i as int),
            decreases n - i,
        {
            indices.push(queue_family_indices[i]);
            assert(indices@ =~= queue_family_indices@.take(i as int + 1));
            i += 1;
        }
        assert(indices@ =~= queue_family_indices@);

        VulkanSwapChain {
            format: surface_format.format,
            extent,
            config: SwapChainConfig {
                min_image_count: image_count,
                image_format: surface_format.format,
                image_color_space: surface_format.color_space,
                image_extent: extent,
                image_array_layers: 1,
                image_usage: IMAGE_USAGE_COLOR_ATTACHMENT,
                image_sharing_mode,
                queue_family_indices: indices,
                pre_transform: support.capabilities.current_transform,
                composite_alpha,
                present_mode,
                clipped: true,
            },
        }
    }
}

/// The `VK_IMAGE_VIEW_TYPE_2D` view type code.
pub const IMAGE_VIEW_TYPE_2D: u32 = 1;

/// The `VK_IMAGE_ASPECT_COLOR_BIT` flag.
pub const IMAGE_ASPECT_COLOR: u32 = 1;

/// The creation parameters of one swapchain image view: a plain 2D view
/// of the image at `image_index`, in the swapchain's format, with
/// identity channel mapping and a single-mip, single-layer color-aspect
/// subresource range. `identity_swizzle` records the channel mapping;
/// no other mapping is ever produced.
#[derive(Debug, Clone, Copy, PartialEq, Eq, Structural)]
pub struct ImageViewConfig {
    pub image_index: usize,
    pub view_type: u32,
    pub format: u32,
    pub identity_swizzle: bool,
    pub aspect_mask: u32,
    pub base_mip_level: u32,
    pub level_count: u32,
    pub base_array_layer: u32,
    pub layer_count: u32,
}

/// The view the swapchain creates for the image at `image_index`.
pub open spec fn spec_image_view(image_index: int, format: u32) -> ImageViewConfig {
    ImageViewConfig {
        image_index: image_index as usize,
        view_type: IMAGE_VIEW_TYPE_2D,
        format,
        identity_swizzle: true,
        aspect_mask: IMAGE_ASPECT_COLOR,
        base_mip_level: 0,
        level_count: 1,
        base_array_layer: 0,
        layer_count: 1,
    }
}

/// One 2D image view per swapchain image, in order: each in the given
/// format, with identity channel mapping and a single-mip, single-layer
/// color-aspect subresource range.
pub fn create_image_views(image_count: usize, image_format: u32) -> (r: Vec<ImageViewConfig>)
    ensures
        r@.len() == image_count,
        forall|i: int| 0 <= i < image_count ==> r@[i] == spec_image_view(i, image_format),
{
    let mut views: Vec<ImageViewConfig> = Vec::new();
    let mut i: usize = 0;
    while i < image_count
        invariant
            i <= image_count,
            views@.len() == i,
            forall|j: int| 0 <= j < i ==> views@[j] == spec_image_view(j, image_format),
        decreases image_count - i,
    {
        views.push(
            ImageViewConfig {
                image_index: i,
                view_type: IMAGE_VIEW_TYPE_2D,
                format: image_format,
                identity_swizzle: true,
                aspect_mask: IMAGE_ASPECT_COLOR,
                base_mip_level: 0,
                level_count: 1,
                base_array_layer: 0,
                layer_count: 1,
            },
        );
        i += 1;
    }
    views
}

/// Image-count clamping: with no advertised maximum the request is one
/// more than the minimum, unclamped; with an advertised maximum equal to
/// the minimum the request is clamped down to exactly the minimum; and
/// with any advertised maximum the request never exceeds it. (A maximum
/// of zero is no maximum at all, so a platform reporting zero for both
/// bounds gets the unclamped request of one.)
pub proof fn lemma_image_count_clamping(capabilities: SurfaceCapabilities)
    requires
        capabilities.min_image_count < u32::MAX,
    ensures
        capabilities.max_image_count == 0 ==> spec_image_count(capabilities)
            == capabilities.min_image_count + 1,
        capabilities.max_image_count == capabilities.min_image_count
            && capabilities.max_image_count > 0 ==> spec_image_count(capabilities)
            == capabilities.min_image_count,
        capabilities.max_image_count > 0 ==> spec_image_count(capabilities)
            <= capabilities.max_image_count,
{
}

} // verus!
