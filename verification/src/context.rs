//! The context model: what a Vulkan instance bound to a window system is
//! configured with, and the annotated list of physical devices it
//! enumerates. The embedding program performs the driver calls; it hands
//! in the enumerated data as plain values and executes the returned,
//! verified configuration.

use vstd::prelude::*;

use crate::device;
use crate::device::PhysicalDeviceType;
use crate::device::VulkanDevice;
use crate::errors::VulkanError;
use crate::utils;

verus! {

/// One queue family of a physical device, as the enumeration reports it:
/// how many queues it offers, whether they can run graphics commands, and
/// whether they can present to the surface held by the context.
#[derive(Debug, Clone, Copy, PartialEq, Eq, Structural)]
pub struct QueueFamilyProperties {
    pub queue_count: u32,
    pub supports_graphics: bool,
    pub supports_present: bool,
}

/// Everything the candidate evaluation reads about one enumerated
/// physical device.
pub struct PhysicalDeviceInfo {
    pub queue_families: Vec<QueueFamilyProperties>,
    pub extension_names: Vec<String>,
    pub device_type: PhysicalDeviceType,
}

/// The family offers at least one queue able to run graphics commands.
pub open spec fn family_has_graphics(f: QueueFamilyProperties) -> bool {
    f.queue_count > 0 && f.supports_graphics
}

/// The family offers at least one queue able to present to the surface.
pub open spec fn family_has_present(f: QueueFamilyProperties) -> bool {
    f.queue_count > 0 && f.supports_present
}

/// The queue-family scan: walk the families in order, remember the most
/// recently seen graphics-capable and present-capable family, and stop as
/// soon as both have been found.
pub open spec fn scan_queue_families(
    families: Seq<QueueFamilyProperties>,
    i: int,
    graphics: Option<u32>,
    present: Option<u32>,
) -> (Option<u32>, Option<u32>)
    decreases families.len() - i,
{
    if i >= families.len() || (graphics is Some && present is Some) {
        (graphics, present)
    } else {
        let next_graphics = if family_has_graphics(families[i]) {
            Some(i as u32)
        } else {
            graphics
        };
        let next_present = if family_has_present(families[i]) {
            Some(i as u32)
        } else {
            present
        };
        scan_queue_families(families, i + 1, next_graphics, next_present)
    }
}

/// One enumerated physical device, annotated with the queue families the
/// scan found and whether the device supports the required extensions.
pub struct VulkanPhysicalDevice {
    pub graphics_family_index: Option<u32>,
    pub present_family_index: Option<u32>,
    pub suitable: bool,
    pub device_type: PhysicalDeviceType,
}

impl VulkanPhysicalDevice {
    /// Both a graphics-capable and a present-capable queue family were
    /// found.
    pub open spec fn complete(&self) -> bool {
        self.graphics_family_index is Some && self.present_family_index is Some
    }

    /// Evaluate one enumerated device: scan its queue families and test
    /// its extension list against the required device extensions.
    pub fn new(
        families: &Vec<QueueFamilyProperties>,
        extensions: &Vec<String>,
        required_ext: &Vec<String>,
        device_type: PhysicalDeviceType,
    ) -> (r: VulkanPhysicalDevice)
        requires
            families@.len() <= u32::MAX,
        ensures
            (r.graphics_family_index, r.present_family_index) == scan_queue_families(
                families@,
                0,
                None,
                None,
            ),
            r.suitable == utils::supports_all(extensions.deep_view(), required_ext.deep_view()),
            r.device_type == device_type,
    {
        let n = families.len();
        let mut graphics_queue_index: Option<u32> = None;
        let mut present_queue_index: Option<u32> = None;
        let mut idx: usize = 0;
        while idx < n && !(graphics_queue_index.is_some() && present_queue_index.is_some())
            invariant
                idx <= n,
                n == families@.len(),
                n <= u32::MAX,
                scan_queue_families(families@, idx as int, graphics_queue_index, present_queue_index)
                    == scan_queue_families(families@, 0, None, None),
            decreases n - idx,
        {
            let family = families[idx];
            if family.queue_count > 0 && family.supports_graphics {
                graphics_queue_index = Some(idx as u32);
            }
            if family.queue_count > 0 && family.supports_present {
                present_queue_index = Some(idx as u32);
            }
            idx += 1;
        }
        VulkanPhysicalDevice {
            graphics_family_index: graphics_queue_index,
            present_family_index: present_queue_index,
            suitable: utils::is_physical_device_suitable(extensions, required_ext),
            device_type,
        }
    }

    /// Both queue family indices are present.
    pub fn is_complete(&self) -> (r: bool)
        ensures
            r == self.complete(),
    {
        self.graphics_family_index.is_some() && self.present_family_index.is_some()
    }
}

/// The characters of the debug-utilities instance extension name,
/// requested in debug builds so a messenger can be installed.
pub open spec fn debug_utils_extension_name() -> Seq<char> {
    "VK_EXT_debug_utils"@
}

/// The characters of the standard validation layer name, requested
/// unconditionally in debug builds.
pub open spec fn validation_layer_name() -> Seq<char> {
    "VK_LAYER_KHRONOS_validation"@
}

/// The characters of the swapchain device extension name, required of
/// every candidate device.
pub open spec fn swapchain_extension_name() -> Seq<char> {
    "VK_KHR_swapchain"@
}

/// The instance extensions a context requests: the surface extensions the
/// windowing system demands, then the caller's extra extensions, then, in
/// debug builds, the debug-utilities extension.
pub open spec fn instance_extension_names(
    surface_extensions: Seq<Seq<char>>,
    extra: Seq<Seq<char>>,
    debug: bool,
) -> Seq<Seq<char>> {
    surface_extensions + extra + if debug {
        seq![debug_utils_extension_name()]
    } else {
        Seq::empty()
    }
}

/// The layers a context enables: the requested layers the runtime offers,
/// then, in debug builds, the standard validation layer.
pub open spec fn enabled_layer_names(
    requested: Seq<Seq<char>>,
    available: Seq<Seq<char>>,
    debug: bool,
) -> Seq<Seq<char>> {
    utils::filter_supported_layers(requested, available) + if debug {
        seq![validation_layer_name()]
    } else {
        Seq::empty()
    }
}

/// The name list an optional argument stands for.
pub open spec fn optional_names(names: Option<&Vec<String>>) -> Seq<Seq<char>> {
    match names {
        Some(v) => v.deep_view(),
        None => Seq::empty(),
    }
}

/// The candidate annotation `new` computes for one enumerated device.
pub open spec fn candidate_matches(
    candidate: VulkanPhysicalDevice,
    info: PhysicalDeviceInfo,
    required_ext: Seq<Seq<char>>,
) -> bool {
    &&& (candidate.graphics_family_index, candidate.present_family_index) == scan_queue_families(
        info.queue_families@,
        0,
        None,
        None,
    )
    &&& candidate.suitable == utils::supports_all(info.extension_names.deep_view(), required_ext)
    &&& candidate.device_type == info.device_type
}

/// The configuration of a Vulkan instance bound to a window system,
/// together with the annotated physical devices it enumerated. The
/// embedding program creates the native instance, surface and (in debug
/// builds) debug messenger from exactly these fields, and owns their
/// handles; it must release the messenger, then the surface, then the
/// instance, as the teardown plan orders them.
pub struct VulkanContext {
    pub app_name: String,
    pub app_version: u32,
    pub extensions: Vec<String>,
    pub device_extensions: Vec<String>,
    pub layers: Vec<String>,
    pub debug_messenger: bool,
    pub physical_devices: Vec<VulkanPhysicalDevice>,
}

impl VulkanContext {
    /// Negotiate the configuration of a context for the application
    /// `app`: reject a name with an embedded null, keep the requested
    /// layers the runtime offers, assemble the instance extension list,
    /// and annotate every enumerated physical device with its queue
    /// families and its support for the swapchain extension.
    ///
    /// `surface_extensions` are the instance extensions the windowing
    /// system requires for the display in use; `available_layers` are the
    /// layer names the runtime enumerates; `devices` holds what the
    /// enumeration reported of each physical device. `debug` selects the
    /// debug-build behaviour: validation layer, debug-utilities extension
    /// and messenger.
    pub fn new(
        app: &str,
        version: u32,
        surface_extensions: &Vec<String>,
        available_layers: &Vec<String>,
        devices: &Vec<PhysicalDeviceInfo>,
        extensions: Option<&Vec<String>>,
        layers: Option<&Vec<String>>,
        debug: bool,
    ) -> (r: Result<VulkanContext, VulkanError>)
        requires
            forall|i: int|
                0 <= i < devices@.len() ==> (#[trigger] devices@[i]).queue_families@.len()
                    <= u32::MAX,
        ensures
            match r {
                Ok(c) => {
                    &&& !app@.contains('\0')
                    &&& c.app_name@ == app@
                    &&& c.app_version == version
                    &&& c.extensions.deep_view() == instance_extension_names(
                        surface_extensions.deep_view(),
                        optional_names(extensions),
                        debug,
                    )
                    &&& c.layers.deep_view() == enabled_layer_names(
                        optional_names(layers),
                        available_layers.deep_view(),
                        debug,
                    )
                    &&& c.device_extensions.deep_view() == seq![swapchain_extension_name()]
                    &&& c.debug_messenger == debug
                    &&& c.physical_devices@.len() == devices@.len()
                    &&& forall|i: int|
                        0 <= i < devices@.len() ==> candidate_matches(
                            #[trigger] c.physical_devices@[i],
                            devices@[i],
                            seq![swapchain_extension_name()],
                        )
                },
                Err(e) => e == VulkanError::StringError && app@.contains('\0'),
            },
    {
        if utils::str_contains_nul(app) {
            return Err(VulkanError::StringError);
        }

        let mut layer_names: Vec<String> = match layers {
            Some(requested) => utils::filter_layers(requested, available_layers),
            None => Vec::new(),
        };
        if debug {
            layer_names.push("VK_LAYER_KHRONOS_validation".to_owned());
        }
        proof {
            lemma_names_pointwise(layer_names);
            assert(layer_names.deep_view() =~= enabled_layer_names(
                optional_names(layers),
                available_layers.deep_view(),
                debug,
            ));
        }

        let mut extension_names: Vec<String> = Vec::new();
        utils::append_names(&mut extension_names, surface_extensions);
        if let Some(extra) = extensions {
            utils::append_names(&mut extension_names, extra);
        }
        proof {
            assert(extension_names.deep_view() =~= surface_extensions.deep_view()
                + optional_names(extensions));
        }
        if debug {
            extension_names.push("VK_EXT_debug_utils".to_owned());
        }
        proof {
            lemma_names_pointwise(extension_names);
            assert(extension_names.deep_view() =~= instance_extension_names(
                surface_extensions.deep_view(),
                optional_names(extensions),
                debug,
            ));
        }

        let mut device_extensions: Vec<String> = Vec::new();
        device_extensions.push("VK_KHR_swapchain".to_owned());
        proof {
            lemma_names_pointwise(device_extensions);
            assert(device_extensions.deep_view() =~= seq![swapchain_extension_name()]);
        }

        let n = devices.len();
        let mut physical_devices: Vec<VulkanPhysicalDevice> = Vec::new();
        let mut i: usize = 0;
        while i < n
            invariant
                i <= n,
                n == devices@.len(),
                device_extensions.deep_view() == seq![swapchain_extension_name()],
                forall|j: int|
                    0 <= j < devices@.len() ==> (#[trigger] devices@[j]).queue_families@.len()
                        <= u32::MAX,
                physical_devices@.len() == i,
                forall|j: int|
                    0 <= j < i ==> candidate_matches(
                        #[trigger] physical_devices@[j],
                        devices@[j],
                        seq![swapchain_extension_name()],
                    ),
            decreases n - i,
        {
            let info = &devices[i];
            let candidate = VulkanPhysicalDevice::new(
                &info.queue_families,
                &info.extension_names,
                &device_extensions,
                info.device_type,
            );
            physical_devices.push(candidate);
            i += 1;
        }

        Ok(
            VulkanContext {
                app_name: app.to_owned(),
                app_version: version,
                extensions: extension_names,
                device_extensions,
                layers: layer_names,
                debug_messenger: debug,
                physical_devices,
            },
        )
    }

    /// Select a physical device by the default policy and plan a logical
    /// device over it. The policy walks the candidates in enumeration
    /// order, skips any that is not suitable or not complete, and
    /// replaces the running selection only when a strictly preferred
    /// device classification appears, so ties go to the first-seen
    /// candidate. Fails with `DeviceSelectionError` when no candidate
    /// qualifies.
    pub fn create_graphic_device_default(&self) -> (r: Result<VulkanDevice, VulkanError>)
        ensures
            match r {
                Ok(d) => device::is_default_selection(
                    self.physical_devices@,
                    d.physical_device_index as int,
                ) && device::device_matches(
                    d,
                    self.physical_devices@[d.physical_device_index as int],
                    self.device_extensions.deep_view(),
                ),
                Err(e) => {
                    &&& e == VulkanError::DeviceSelectionError
                    &&& forall|j: int|
                        0 <= j < self.physical_devices@.len() ==> !device::qualified(
                            #[trigger] self.physical_devices@[j],
                        )
                },
            },
    {
        let n = self.physical_devices.len();
        let mut selected_device: Option<usize> = None;
        let mut selected_device_type = PhysicalDeviceType::Other;
        let mut index: usize = 0;
        while index < n
            invariant
                index <= n,
                n == self.physical_devices@.len(),
                match selected_device {
                    None => forall|j: int|
                        0 <= j < index ==> !device::qualified(
                            #[trigger] self.physical_devices@[j],
                        ),
                    Some(s) => {
                        &&& s < index
                        &&& device::qualified(self.physical_devices@[s as int])
                        &&& selected_device_type == self.physical_devices@[s as int].device_type
                        &&& forall|j: int|
                            0 <= j < index && device::qualified(
                                #[trigger] self.physical_devices@[j],
                            ) ==> device::device_type_rank(self.physical_devices@[j].device_type)
                                <= device::device_type_rank(selected_device_type)
                        &&& forall|j: int|
                            0 <= j < s && device::qualified(
                                #[trigger] self.physical_devices@[j],
                            ) ==> device::device_type_rank(self.physical_devices@[j].device_type)
                                < device::device_type_rank(selected_device_type)
                    },
                },
            decreases n - index,
        {
            let dev = &self.physical_devices[index];
            if dev.suitable && dev.is_complete() {
                match selected_device {
                    Some(_) => {
                        if device::device_type_preference(dev.device_type)
                            > device::device_type_preference(selected_device_type) {
                            selected_device = Some(index);
                            selected_device_type = dev.device_type;
                        }
                    },
                    None => {
                        selected_device = Some(index);
                        selected_device_type = dev.device_type;
                    },
                }
            }
            index += 1;
        }
        match selected_device {
            Some(idx) => {
                assert(device::is_default_selection(self.physical_devices@, idx as int));
                self.create_graphic_device(idx)
            },
            None => Err(VulkanError::DeviceSelectionError),
        }
    }

    /// Plan a logical device over the candidate at `index`. Fails with
    /// `DeviceSelectionError` when the index is out of range or the
    /// candidate's queue families are not complete.
    pub fn create_graphic_device(&self, index: usize) -> (r: Result<VulkanDevice, VulkanError>)
        ensures
            match r {
                Ok(d) => index < self.physical_devices@.len()
                    && self.physical_devices@[index as int].complete()
                    && d.physical_device_index == index && device::device_matches(
                    d,
                    self.physical_devices@[index as int],
                    self.device_extensions.deep_view(),
                ),
                Err(e) => {
                    &&& e == VulkanError::DeviceSelectionError
                    &&& (index >= self.physical_devices@.len()
                        || !self.physical_devices@[index as int].complete())
                },
            },
    {
        if index >= self.physical_devices.len() {
            return Err(VulkanError::DeviceSelectionError);
        }
        let graphics_device = &self.physical_devices[index];
        match (graphics_device.graphics_family_index, graphics_device.present_family_index) {
            (Some(graphics_family_index), Some(present_family_index)) => Ok(
                VulkanDevice::new(
                    index,
                    graphics_family_index,
                    present_family_index,
                    &self.device_extensions,
                ),
            ),
            _ => Err(VulkanError::DeviceSelectionError),
        }
    }
}

/// Each entry of a name list's element-wise view is the view of the
/// entry.
proof fn lemma_names_pointwise(names: Vec<String>)
    ensures
        names.deep_view().len() == names@.len(),
        forall|i: int| 0 <= i < names@.len() ==> names.deep_view()[i] == names@[i]@,
{
}

proof fn lemma_scan_queue_families_props(
    families: Seq<QueueFamilyProperties>,
    i: int,
    graphics: Option<u32>,
    present: Option<u32>,
)
    requires
        0 <= i <= families.len(),
        families.len() <= u32::MAX,
        graphics matches Some(g) ==> g < families.len() && family_has_graphics(
            families[g as int],
        ),
        present matches Some(p) ==> p < families.len() && family_has_present(families[p as int]),
    ensures
        (scan_queue_families(families, i, graphics, present).0 is Some <==> (graphics is Some
            || exists|j: int|
            i <= j < families.len() && family_has_graphics(#[trigger] families[j]))),
        (scan_queue_families(families, i, graphics, present).1 is Some <==> (present is Some
            || exists|j: int|
            i <= j < families.len() && family_has_present(#[trigger] families[j]))),
        scan_queue_families(families, i, graphics, present).0 matches Some(g) ==> g
            < families.len() && family_has_graphics(families[g as int]),
        scan_queue_families(families, i, graphics, present).1 matches Some(p) ==> p
            < families.len() && family_has_present(families[p as int]),
    decreases families.len() - i,
{
    if i >= families.len() || (graphics is Some && present is Some) {
    } else {
        let next_graphics = if family_has_graphics(families[i]) {
            Some(i as u32)
        } else {
            graphics
        };
        let next_present = if family_has_present(families[i]) {
            Some(i as u32)
        } else {
            present
        };
        lemma_scan_queue_families_props(families, i + 1, next_graphics, next_present);
    }
}

/// Queue family completeness: the scan finds a graphics family index
/// exactly when some enumerated family offers graphics queues, and a
/// present family index exactly when some family offers presenting
/// queues; the indices it reports always name such families. A device
/// reporting no queue families is therefore never complete.
pub proof fn lemma_queue_family_completeness(families: Seq<QueueFamilyProperties>)
    requires
        families.len() <= u32::MAX,
    ensures
        (scan_queue_families(families, 0, None, None).0 is Some <==> exists|j: int|
            0 <= j < families.len() && family_has_graphics(#[trigger] families[j])),
        (scan_queue_families(families, 0, None, None).1 is Some <==> exists|j: int|
            0 <= j < families.len() && family_has_present(#[trigger] families[j])),
        scan_queue_families(families, 0, None, None).0 matches Some(g) ==> g < families.len()
            && family_has_graphics(families[g as int]),
        scan_queue_families(families, 0, None, None).1 matches Some(p) ==> p < families.len()
            && family_has_present(families[p as int]),
        families.len() == 0 ==> scan_queue_families(families, 0, None, None) == (
            None::<u32>,
            None::<u32>,
        ),
{
    lemma_scan_queue_families_props(families, 0, None, None);
}

/// Queue family completeness, on an annotated candidate: a candidate the
/// evaluation produced is complete exactly when its device enumerated
/// both a graphics-capable and a present-capable queue family, and a
/// device reporting zero queue families never yields a complete
/// candidate.
pub proof fn lemma_candidate_completeness(
    candidate: VulkanPhysicalDevice,
    info: PhysicalDeviceInfo,
    required_ext: Seq<Seq<char>>,
)
    requires
        candidate_matches(candidate, info, required_ext),
        info.queue_families@.len() <= u32::MAX,
    ensures
        candidate.complete() <==> ((exists|j: int|
            0 <= j < info.queue_families@.len() && family_has_graphics(
                #[trigger] info.queue_families@[j],
            )) && (exists|j: int|
            0 <= j < info.queue_families@.len() && family_has_present(
                #[trigger] info.queue_families@[j],
            ))),
        info.queue_families@.len() == 0 ==> !candidate.complete(),
{
    lemma_queue_family_completeness(info.queue_families@);
}

} // verus!
