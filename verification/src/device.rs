//! The logical-device model: the classification of physical devices, the
//! default selection policy, and the queue-creation plan a logical device
//! is built from. The embedding program creates the native logical device
//! and retrieves its queue handles from exactly this plan.

use vstd::prelude::*;

use crate::context::VulkanPhysicalDevice;
use crate::swapchain::SharingMode;
use crate::swapchain::SwapChainSupportDetail;
use crate::swapchain::VulkanSwapChain;
use crate::swapchain::swapchain_matches;

verus! {

/// The classification of a physical device, as the driver reports it.
#[derive(Debug, Clone, Copy, PartialEq, Eq, Structural)]
pub enum PhysicalDeviceType {
    Other,
    IntegratedGpu,
    DiscreteGpu,
    VirtualGpu,
    Cpu,
    Unknown,
}

/// The preference order of the default selection policy: a discrete GPU
/// over an integrated GPU over a virtual GPU over anything else.
pub open spec fn device_type_rank(t: PhysicalDeviceType) -> int {
    match t {
        PhysicalDeviceType::DiscreteGpu => 3,
        PhysicalDeviceType::IntegratedGpu => 2,
        PhysicalDeviceType::VirtualGpu => 1,
        _ => 0,
    }
}

/// The preference order of the default selection policy, as a runnable
/// value.
pub fn device_type_preference(t: PhysicalDeviceType) -> (r: u8)
    ensures
        r as int == device_type_rank(t),
{
    match t {
        PhysicalDeviceType::DiscreteGpu => 3,
        PhysicalDeviceType::IntegratedGpu => 2,
        PhysicalDeviceType::VirtualGpu => 1,
        _ => 0,
    }
}

/// The label a device classification is logged under.
pub fn device_type_name(t: PhysicalDeviceType) -> (r: String)
    ensures
        t is Cpu ==> r@ == "Cpu"@,
        t is IntegratedGpu ==> r@ == "Integrated GPU"@,
        t is DiscreteGpu ==> r@ == "Discrete GPU"@,
        t is VirtualGpu ==> r@ == "Virtual GPU"@,
        t is Other ==> r@ == "Other"@,
        t is Unknown ==> r@ == "Unknown Device Type"@,
{
    match t {
        PhysicalDeviceType::Cpu => "Cpu".to_owned(),
        PhysicalDeviceType::IntegratedGpu => "Integrated GPU".to_owned(),
        PhysicalDeviceType::DiscreteGpu => "Discrete GPU".to_owned(),
        PhysicalDeviceType::VirtualGpu => "Virtual GPU".to_owned(),
        PhysicalDeviceType::Other => "Other".to_owned(),
        PhysicalDeviceType::Unknown => "Unknown Device Type".to_owned(),
    }
}

/// The major part of a packed 32-bit Vulkan API version.
pub fn api_version_major(version: u32) -> (r: u32)
    ensures
        r == version >> 22,
{
    version >> 22
}

/// The minor part of a packed 32-bit Vulkan API version.
pub fn api_version_minor(version: u32) -> (r: u32)
    ensures
        r == (version >> 12) & 0x3ff,
{
    (version >> 12) & 0x3ff
}

/// The patch part of a packed 32-bit Vulkan API version.
pub fn api_version_patch(version: u32) -> (r: u32)
    ensures
        r == version & 0xfff,
{
    version & 0xfff
}

/// One queue-creation record of the logical-device plan: request
/// `queue_count` queues of family `family_index`, each at priority 1.0.
#[derive(Debug, Clone, Copy, PartialEq, Eq, Structural)]
pub struct QueueCreateRecord {
    pub family_index: u32,
    pub queue_count: u32,
}

/// The queue-creation records a device is built with: a single record
/// when the graphics and present families coincide, otherwise one record
/// per family, each requesting one queue.
pub open spec fn queue_plan(graphics_family_index: u32, present_family_index: u32) -> Seq<
    QueueCreateRecord,
> {
    if graphics_family_index == present_family_index {
        seq![QueueCreateRecord { family_index: graphics_family_index, queue_count: 1 }]
    } else {
        seq![
            QueueCreateRecord { family_index: graphics_family_index, queue_count: 1 },
            QueueCreateRecord { family_index: present_family_index, queue_count: 1 },
        ]
    }
}

/// A candidate both supports the required extensions and has complete
/// queue families: only such candidates qualify for default selection.
pub open spec fn qualified(c: VulkanPhysicalDevice) -> bool {
    c.suitable && c.complete()
}

/// `i` is the index the default selection policy picks from `candidates`:
/// a qualified candidate of maximal preference, and the first such.
pub open spec fn is_default_selection(candidates: Seq<VulkanPhysicalDevice>, i: int) -> bool {
    &&& 0 <= i < candidates.len()
    &&& qualified(candidates[i])
    &&& forall|j: int|
        0 <= j < candidates.len() && qualified(#[trigger] candidates[j]) ==> device_type_rank(
            candidates[j].device_type,
        ) <= device_type_rank(candidates[i].device_type)
    &&& forall|j: int|
        0 <= j < i && qualified(#[trigger] candidates[j]) ==> device_type_rank(
            candidates[j].device_type,
        ) < device_type_rank(candidates[i].device_type)
}

/// The logical-device model: which enumerated physical device the
/// logical device is created over (by its enumeration index, standing
/// for the native handle), the two queue family indices, the
/// queue-creation records, and the device extensions to enable. The
/// native logical device, its two queue handles (queue index 0 of each
/// family), and its destruction are the embedding program's, ordered by
/// the teardown plan.
pub struct VulkanDevice {
    pub physical_device_index: usize,
    pub graphics_family_index: u32,
    pub present_family_index: u32,
    pub queue_create_infos: Vec<QueueCreateRecord>,
    pub extensions: Vec<String>,
}

/// The device plan `d` is the one a candidate with `c`'s family indices
/// and the extension list `device_extensions` gives rise to.
pub open spec fn device_matches(
    d: VulkanDevice,
    c: VulkanPhysicalDevice,
    device_extensions: Seq<Seq<char>>,
) -> bool {
    &&& Some(d.graphics_family_index) == c.graphics_family_index
    &&& Some(d.present_family_index) == c.present_family_index
    &&& d.queue_create_infos@ == queue_plan(d.graphics_family_index, d.present_family_index)
    &&& d.extensions.deep_view() == device_extensions
}

impl VulkanDevice {
    /// Plan a logical device over the physical device at
    /// `physical_device_index` and the two queue families: one
    /// queue-creation record when they coincide, else one per family, and
    /// the given device extensions enabled.
    pub fn new(
        physical_device_index: usize,
        graphics_family_index: u32,
        present_family_index: u32,
        extensions: &Vec<String>,
    ) -> (r: VulkanDevice)
        ensures
            r.physical_device_index == physical_device_index,
            r.graphics_family_index == graphics_family_index,
            r.present_family_index == present_family_index,
            r.queue_create_infos@ == queue_plan(graphics_family_index, present_family_index),
            r.extensions.deep_view() == extensions.deep_view(),
    {
        let mut queue_create_infos: Vec<QueueCreateRecord> = Vec::new();
        queue_create_infos.push(
            QueueCreateRecord { family_index: graphics_family_index, queue_count: 1 },
        );
        if graphics_family_index != present_family_index {
            queue_create_infos.push(
                QueueCreateRecord { family_index: present_family_index, queue_count: 1 },
            );
        }
        proof {
            assert(queue_create_infos@ =~= queue_plan(
                graphics_family_index,
                present_family_index,
            ));
        }
        let mut enabled_extensions: Vec<String> = Vec::new();
        crate::utils::append_names(&mut enabled_extensions, extensions);
        proof {
            assert(enabled_extensions.deep_view() =~= extensions.deep_view());
        }
        VulkanDevice {
            physical_device_index,
            graphics_family_index,
            present_family_index,
            queue_create_infos,
            extensions: enabled_extensions,
        }
    }

    /// Negotiate a swapchain for a `width` by `height` surface against
    /// the freshly queried support. When the graphics and present
    /// families differ, the images are shared concurrently between the
    /// two families (two different queues will touch them); otherwise
    /// they stay exclusive to the one family, with no family list.
    pub fn create_swapchain(
        &self,
        support: &SwapChainSupportDetail,
        width: u32,
        height: u32,
    ) -> (r: VulkanSwapChain)
        requires
            support.formats@.len() > 0,
            support.capabilities.min_image_count < u32::MAX,
        ensures
            self.graphics_family_index != self.present_family_index ==> swapchain_matches(
                r,
                *support,
                width,
                height,
                SharingMode::Concurrent,
                seq![self.graphics_family_index, self.present_family_index],
            ),
            self.graphics_family_index == self.present_family_index ==> swapchain_matches(
                r,
                *support,
                width,
                height,
                SharingMode::Exclusive,
                Seq::empty(),
            ),
    {
        let mut queue_family_indices: Vec<u32> = Vec::new();
        let image_sharing_mode: SharingMode;
        if self.graphics_family_index != self.present_family_index {
            image_sharing_mode = SharingMode::Concurrent;
            queue_family_indices.push(self.graphics_family_index);
            queue_family_indices.push(self.present_family_index);
            assert(queue_family_indices@ =~= seq![
                self.graphics_family_index,
                self.present_family_index,
            ]);
        } else {
            image_sharing_mode = SharingMode::Exclusive;
        }
        proof {
            if self.graphics_family_index == self.present_family_index {
                assert(queue_family_indices@ =~= Seq::<u32>::empty());
            }
        }
        VulkanSwapChain::new(support, width, height, image_sharing_mode, &queue_family_indices)
    }
}

/// Default selection monotonicity: whatever order the candidates stand
/// in, if any complete and suitable discrete-GPU candidate exists, the
/// index the default policy selects names a discrete-GPU candidate.
pub proof fn lemma_default_selection_prefers_discrete(
    candidates: Seq<VulkanPhysicalDevice>,
    i: int,
    witness: int,
)
    requires
        is_default_selection(candidates, i),
        0 <= witness < candidates.len(),
        qualified(candidates[witness]),
        candidates[witness].device_type == PhysicalDeviceType::DiscreteGpu,
    ensures
        candidates[i].device_type == PhysicalDeviceType::DiscreteGpu,
{
    assert(device_type_rank(candidates[witness].device_type) <= device_type_rank(
        candidates[i].device_type,
    ));
}

} // verus!
