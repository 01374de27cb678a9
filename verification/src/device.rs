//! Choosing the physical device and the queue family to render with.
use vstd::prelude::*;

verus! {

/// The kind of a physical device, as the driver reports it.
#[derive(Clone, Copy, Debug, PartialEq, Eq, Structural)]
pub enum DeviceKind {
    IntegratedGpu,
    DiscreteGpu,
    VirtualGpu,
    Cpu,
    Other,
    /// A kind that this program does not know by name.
    Unrecognized,
}

/// Preference of a device kind: the lower, the better.
pub open spec fn kind_rank(kind: DeviceKind) -> nat {
    match kind {
        DeviceKind::DiscreteGpu => 0,
        DeviceKind::IntegratedGpu => 1,
        DeviceKind::VirtualGpu => 2,
        DeviceKind::Cpu => 3,
        DeviceKind::Other => 4,
        DeviceKind::Unrecognized => 5,
    }
}

/// Preference of a device kind: discrete GPUs first, then integrated,
/// virtual, CPU, other, and unrecognised kinds last.
pub fn device_type_rank(kind: DeviceKind) -> (rank: u32)
    ensures
        rank == kind_rank(kind),
{
    match kind {
        DeviceKind::DiscreteGpu => 0,
        DeviceKind::IntegratedGpu => 1,
        DeviceKind::VirtualGpu => 2,
        DeviceKind::Cpu => 3,
        DeviceKind::Other => 4,
        DeviceKind::Unrecognized => 5,
    }
}

} // verus!

verus! {

/// The device extensions that the program asks about.
#[derive(Clone, Copy, Debug, PartialEq, Eq, Structural)]
pub struct DeviceExtensionSet {
    pub khr_swapchain: bool,
    pub khr_vulkan_memory_model: bool,
}

impl DeviceExtensionSet {
    /// Every extension of `other` is in `self`.
    pub open spec fn spec_contains(self, other: Self) -> bool {
        &&& other.khr_swapchain ==> self.khr_swapchain
        &&& other.khr_vulkan_memory_model ==> self.khr_vulkan_memory_model
    }

    /// Returns whether every extension of `other` is in `self`.
    pub fn contains(&self, other: &Self) -> (r: bool)
        ensures
            r == self.spec_contains(*other),
    {
        (!other.khr_swapchain || self.khr_swapchain) && (!other.khr_vulkan_memory_model
            || self.khr_vulkan_memory_model)
    }
}

/// The device extensions that rendering needs: swapchains and the Vulkan memory model.
pub fn required_device_extensions() -> (r: DeviceExtensionSet)
    ensures
        r.khr_swapchain,
        r.khr_vulkan_memory_model,
{
    DeviceExtensionSet { khr_swapchain: true, khr_vulkan_memory_model: true }
}

/// The device features that the program asks about.
#[derive(Clone, Copy, Debug, PartialEq, Eq, Structural)]
pub struct DeviceFeatureSet {
    pub vulkan_memory_model: bool,
}

impl DeviceFeatureSet {
    /// Every feature of `other` is in `self`.
    pub open spec fn spec_contains(self, other: Self) -> bool {
        other.vulkan_memory_model ==> self.vulkan_memory_model
    }

    /// Returns whether every feature of `other` is in `self`.
    pub fn contains(&self, other: &Self) -> (r: bool)
        ensures
            r == self.spec_contains(*other),
    {
        !other.vulkan_memory_model || self.vulkan_memory_model
    }
}

/// The device features that rendering needs: the Vulkan memory model.
pub fn required_device_features() -> (r: DeviceFeatureSet)
    ensures
        r.vulkan_memory_model,
{
    DeviceFeatureSet { vulkan_memory_model: true }
}

/// The bit of a queue family's flags that says it can run graphics work.
pub const QUEUE_GRAPHICS: u32 = 1;

/// What the program reads of one queue family of a device.
#[derive(Clone, Copy, Debug, PartialEq, Eq, Structural)]
pub struct QueueFamilyInfo {
    /// The family's queue flags, as raw bits.
    pub queue_flags: u32,
    /// Whether the family can present to the program's window.
    pub presentation_supported: bool,
}

/// A queue family can render and present.
pub open spec fn family_usable(q: QueueFamilyInfo) -> bool {
    q.queue_flags & QUEUE_GRAPHICS != 0 && q.presentation_supported
}

/// `i` is the first family of `families` that can render and present.
pub open spec fn is_first_usable_family(families: Seq<QueueFamilyInfo>, i: int) -> bool {
    &&& 0 <= i < families.len()
    &&& family_usable(families[i])
    &&& forall|j: int| 0 <= j < i ==> !family_usable(#[trigger] families[j])
}

/// Some family of `families` can render and present.
pub open spec fn has_usable_family(families: Seq<QueueFamilyInfo>) -> bool {
    exists|j: int| 0 <= j < families.len() && family_usable(#[trigger] families[j])
}

/// Returns whether a queue family can run graphics work and present.
pub fn queue_family_usable(q: &QueueFamilyInfo) -> (r: bool)
    ensures
        r == family_usable(*q),
        r == (q.queue_flags % 2 == 1 && q.presentation_supported),
{
    proof {
        lemma_family_usable_iff_graphics_bit(*q);
    }
    q.queue_flags & QUEUE_GRAPHICS != 0 && q.presentation_supported
}

/// Returns the index of the first queue family that can run graphics work and
/// present to the window, or `None` where there is none.
pub fn find_queue_family(families: &Vec<QueueFamilyInfo>) -> (r: Option<u32>)
    requires
        families.len() <= u32::MAX,
    ensures
        r is None <==> !has_usable_family(families@),
        r matches Some(i) ==> is_first_usable_family(families@, i as int),
        r is None <==> forall|j: int|
            0 <= j < families.len() ==> !((#[trigger] families@[j]).queue_flags % 2 == 1
                && families@[j].presentation_supported),
        r matches Some(i) ==> {
            &&& i < families.len()
            &&& families@[i as int].queue_flags % 2 == 1
            &&& families@[i as int].presentation_supported
            &&& forall|j: int|
                0 <= j < i ==> !((#[trigger] families@[j]).queue_flags % 2 == 1
                    && families@[j].presentation_supported)
        },
{
    proof {
        assert forall|j: int| 0 <= j < families.len() implies family_usable(
            #[trigger] families@[j],
        ) == (families@[j].queue_flags % 2 == 1 && families@[j].presentation_supported) by {
            lemma_family_usable_iff_graphics_bit(families@[j]);
        }
    }
    let n: usize = families.len();
    let mut i: usize = 0;
    while i < n
        invariant
            n == families.len(),
            n <= u32::MAX,
            i <= n,
            forall|j: int| 0 <= j < i ==> !family_usable(#[trigger] families@[j]),
            forall|j: int|
                0 <= j < families.len() ==> family_usable(#[trigger] families@[j]) == (
                families@[j].queue_flags % 2 == 1 && families@[j].presentation_supported),
        decreases n - i,
    {
        if queue_family_usable(&families[i]) {
            return Some(i as u32);
        }
        i = i + 1;
    }
    None
}

/// What the program reads of one physical device.
#[derive(Debug)]
pub struct PhysicalDeviceInfo {
    pub extensions: DeviceExtensionSet,
    pub features: DeviceFeatureSet,
    pub kind: DeviceKind,
    pub queue_families: Vec<QueueFamilyInfo>,
}

/// A device can be rendered with: it has the required extensions and
/// features, and a queue family that can render and present.
pub open spec fn device_suitable(d: PhysicalDeviceInfo) -> bool {
    &&& d.extensions.khr_swapchain
    &&& d.extensions.khr_vulkan_memory_model
    &&& d.features.vulkan_memory_model
    &&& has_usable_family(d.queue_families@)
}

/// `i` is the device to render with: a suitable one of the best kind, and
/// the first of those.
pub open spec fn is_chosen_device(devices: Seq<PhysicalDeviceInfo>, i: int) -> bool {
    &&& 0 <= i < devices.len()
    &&& device_suitable(devices[i])
    &&& forall|j: int|
        0 <= j < devices.len() && device_suitable(#[trigger] devices[j]) ==> kind_rank(
            devices[i].kind,
        ) <= kind_rank(devices[j].kind)
    &&& forall|j: int|
        0 <= j < i && device_suitable(#[trigger] devices[j]) ==> kind_rank(devices[i].kind)
            < kind_rank(devices[j].kind)
}

/// Chooses the physical device and queue family to render with: among the
/// devices that have the required extensions and features and a queue family
/// that can render and present, the first of the most preferred kind, with
/// its first such queue family. `None` where no device is suitable.
pub fn select_physical_device(devices: &Vec<PhysicalDeviceInfo>) -> (r: Option<(usize, u32)>)
    requires
        forall|i: int| 0 <= i < devices.len() ==> (#[trigger] devices[i]).queue_families.len() <= u32::MAX,
    ensures
        r is None <==> forall|i: int| 0 <= i < devices.len() ==> !device_suitable(#[trigger] devices[i]),
        r matches Some((i, q)) ==> {
            &&& is_chosen_device(devices@, i as int)
            &&& is_first_usable_family(devices@[i as int].queue_families@, q as int)
        },
        r matches Some((i, q)) ==> {
            &&& i < devices.len()
            &&& devices@[i as int].extensions.khr_swapchain
            &&& devices@[i as int].extensions.khr_vulkan_memory_model
            &&& devices@[i as int].features.vulkan_memory_model
            &&& q < devices@[i as int].queue_families.len()
            &&& devices@[i as int].queue_families@[q as int].queue_flags % 2 == 1
            &&& devices@[i as int].queue_families@[q as int].presentation_supported
            &&& forall|k: int|
                0 <= k < q ==> !((#[trigger] devices@[i as int].queue_families@[k]).queue_flags % 2
                    == 1 && devices@[i as int].queue_families@[k].presentation_supported)
            &&& forall|j: int|
                0 <= j < devices.len() && device_suitable(#[trigger] devices@[j]) ==> kind_rank(
                    devices@[i as int].kind,
                ) <= kind_rank(devices@[j].kind)
            &&& forall|j: int|
                0 <= j < i && device_suitable(#[trigger] devices@[j]) ==> kind_rank(
                    devices@[i as int].kind,
                ) < kind_rank(devices@[j].kind)
        },
{
    let required_extensions = required_device_extensions();
    let required_features = required_device_features();
    let n: usize = devices.len();
    let mut best: Option<(usize, u32, u32)> = None;
    let mut i: usize = 0;
    while i < n
        invariant
            n == devices.len(),
            i <= n,
            required_extensions.khr_swapchain,
            required_extensions.khr_vulkan_memory_model,
            required_features.vulkan_memory_model,
            forall|k: int| 0 <= k < devices.len() ==> (#[trigger] devices[k]).queue_families.len() <= u32::MAX,
            best is None ==> forall|j: int| 0 <= j < i ==> !device_suitable(#[trigger] devices[j]),
            best matches Some((b, q, rank)) ==> {
                &&& b < i
                &&& rank == kind_rank(devices[b as int].kind)
                &&& is_first_usable_family(devices@[b as int].queue_families@, q as int)
                &&& is_chosen_device(devices@.take(i as int), b as int)
            },
        decreases n - i,
    {
        let d = &devices[i];
        if d.extensions.contains(&required_extensions) && d.features.contains(&required_features) {
            match find_queue_family(&d.queue_families) {
                Some(q) => {
                    let rank: u32 = device_type_rank(d.kind);
                    let better: bool = match best {
                        None => true,
                        Some((_, _, best_rank)) => rank < best_rank,
                    };
                    if better {
                        best = Some((i, q, rank));
                    }
                },
                None => {},
            }
        }
        assert(devices@.take(i + 1) =~= devices@.take(i as int).push(devices@[i as int]));
        i = i + 1;
    }
    assert(devices@.take(n as int) =~= devices@);
    match best {
        Some((b, q, _)) => {
            proof {
                let fams = devices@[b as int].queue_families@;
                lemma_family_usable_iff_graphics_bit(fams[q as int]);
                assert forall|k: int| 0 <= k < q implies !((#[trigger] fams[k]).queue_flags % 2 == 1
                    && fams[k].presentation_supported) by {
                    lemma_family_usable_iff_graphics_bit(fams[k]);
                }
            }
            Some((b, q))
        },
        None => None,
    }
}

} // verus!

verus! {

/// Bit zero of a flag word is set exactly when the word is odd.
proof fn lemma_low_bit(x: u32)
    ensures
        (x & 1 != 0) == (x % 2 == 1),
{
    assert((x & 1 != 0) == (x % 2 == 1)) by (bit_vector);
}

/// A queue family can render and present exactly when its flags hold the
/// graphics bit (bit zero) and it can present to the window, whatever its
/// other flags are.
pub proof fn lemma_family_usable_iff_graphics_bit(q: QueueFamilyInfo)
    ensures
        family_usable(q) <==> (q.queue_flags % 2 == 1 && q.presentation_supported),
{
    lemma_low_bit(q.queue_flags);
}

/// Flags other than the graphics bit do not change whether a queue family
/// can render and present.
pub proof fn lemma_other_flags_ignored(q: QueueFamilyInfo, other: u32)
    requires
        other % 2 == 0,
    ensures
        family_usable(QueueFamilyInfo { queue_flags: q.queue_flags | other, ..q }) == family_usable(q),
{
    let x = q.queue_flags;
    assert(other % 2 == 0 ==> ((x | other) & 1 != 0) == (x & 1 != 0)) by (bit_vector);
}

/// Discrete GPUs are preferred to integrated ones, those to virtual ones,
/// then CPUs, then other devices, then kinds that are not recognised.
pub proof fn lemma_kind_preference_order()
    ensures
        kind_rank(DeviceKind::DiscreteGpu) < kind_rank(DeviceKind::IntegratedGpu),
        kind_rank(DeviceKind::IntegratedGpu) < kind_rank(DeviceKind::VirtualGpu),
        kind_rank(DeviceKind::VirtualGpu) < kind_rank(DeviceKind::Cpu),
        kind_rank(DeviceKind::Cpu) < kind_rank(DeviceKind::Other),
        kind_rank(DeviceKind::Other) < kind_rank(DeviceKind::Unrecognized),
        kind_rank(DeviceKind::DiscreteGpu) == 0,
        kind_rank(DeviceKind::Unrecognized) == 5,
{
}

/// Containment of extension sets holds exactly when every extension asked
/// for is present; it is reflexive and transitive, and a set contains the
/// required extensions exactly when it has both of them.
pub proof fn lemma_extension_containment(
    a: DeviceExtensionSet,
    b: DeviceExtensionSet,
    c: DeviceExtensionSet,
)
    ensures
        a.spec_contains(b) <==> ((b.khr_swapchain ==> a.khr_swapchain) && (
        b.khr_vulkan_memory_model ==> a.khr_vulkan_memory_model)),
        a.spec_contains(a),
        a.spec_contains(b) && b.spec_contains(c) ==> a.spec_contains(c),
        a.spec_contains(DeviceExtensionSet { khr_swapchain: true, khr_vulkan_memory_model: true })
            <==> (a.khr_swapchain && a.khr_vulkan_memory_model),
{
}

/// Containment of feature sets holds exactly when every feature asked for
/// is present; it is reflexive and transitive, and a set contains the
/// required features exactly when it has the memory model.
pub proof fn lemma_feature_containment(a: DeviceFeatureSet, b: DeviceFeatureSet, c: DeviceFeatureSet)
    ensures
        a.spec_contains(b) <==> (b.vulkan_memory_model ==> a.vulkan_memory_model),
        a.spec_contains(a),
        a.spec_contains(b) && b.spec_contains(c) ==> a.spec_contains(c),
        a.spec_contains(DeviceFeatureSet { vulkan_memory_model: true }) <==> a.vulkan_memory_model,
{
}

/// A device is suitable exactly when it has the swapchain and memory-model
/// extensions, the memory-model feature, and some queue family whose flags
/// hold the graphics bit and that can present.
pub proof fn lemma_device_suitable_iff(d: PhysicalDeviceInfo)
    ensures
        device_suitable(d) <==> {
            &&& d.extensions.khr_swapchain
            &&& d.extensions.khr_vulkan_memory_model
            &&& d.features.vulkan_memory_model
            &&& exists|j: int|
                0 <= j < d.queue_families.len() && (#[trigger] d.queue_families@[j]).queue_flags % 2
                    == 1 && d.queue_families@[j].presentation_supported
        },
{
    let fams = d.queue_families@;
    if has_usable_family(fams) {
        let j = choose|j: int| 0 <= j < fams.len() && family_usable(#[trigger] fams[j]);
        lemma_family_usable_iff_graphics_bit(fams[j]);
    }
    if exists|j: int|
        0 <= j < fams.len() && (#[trigger] fams[j]).queue_flags % 2 == 1
            && fams[j].presentation_supported {
        let j = choose|j: int|
            0 <= j < fams.len() && (#[trigger] fams[j]).queue_flags % 2 == 1
                && fams[j].presentation_supported;
        lemma_family_usable_iff_graphics_bit(fams[j]);
    }
}

/// The chosen device is suitable, of a kind no other suitable device beats,
/// and no earlier suitable device is of as good a kind; so at most one
/// device is the chosen one.
pub proof fn lemma_chosen_device_unique(devices: Seq<PhysicalDeviceInfo>, i: int, j: int)
    requires
        is_chosen_device(devices, i),
        is_chosen_device(devices, j),
    ensures
        i == j,
        device_suitable(devices[i]),
        forall|k: int| 0 <= k < i && device_suitable(#[trigger] devices[k]) ==> kind_rank(devices[i].kind) < kind_rank(devices[k].kind),
        forall|k: int| 0 <= k < devices.len() && device_suitable(#[trigger] devices[k]) ==> kind_rank(devices[i].kind) <= kind_rank(devices[k].kind),
{
    if i < j {
        assert(device_suitable(devices[i]));
    } else if j < i {
        assert(device_suitable(devices[j]));
    }
}

} // verus!
