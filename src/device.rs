//! Physical device selection: each candidate is described by a capability
//! report gathered from the driver; the rules here decide which candidates
//! qualify and which one is used.

use vstd::prelude::*;

verus! {

/// The two kinds of queue the renderer needs.
#[derive(Clone, Copy, Debug, PartialEq, Eq, Structural)]
pub enum QueueFamilyType {
    Graphics,
    Present,
}

/// The queue family chosen for graphics commands and for presentation.
#[derive(Clone, Copy, Debug, PartialEq, Eq, Structural)]
pub struct PhysicalDeviceQueueFamilies {
    pub graphics_family_index: Option<u32>,
    pub present_family_index: Option<u32>,
}

/// The distinct family indices among those chosen, graphics first.
pub open spec fn unique_family_indices(q: PhysicalDeviceQueueFamilies) -> Seq<u32> {
    match (q.graphics_family_index, q.present_family_index) {
        (Some(g), Some(p)) => if g == p {
            seq![g]
        } else {
            seq![g, p]
        },
        (Some(g), None) => seq![g],
        (None, Some(p)) => seq![p],
        (None, None) => seq![],
    }
}

impl PhysicalDeviceQueueFamilies {
    /// No family chosen yet.
    pub fn new() -> (r: PhysicalDeviceQueueFamilies)
        ensures
            r.graphics_family_index is None,
            r.present_family_index is None,
    {
        PhysicalDeviceQueueFamilies { graphics_family_index: None, present_family_index: None }
    }

    /// The index chosen for `family_type`, or `u32::MAX` when none was.
    pub fn get_family_index(&self, family_type: QueueFamilyType) -> (r: u32)
        ensures
            r == match family_type {
                QueueFamilyType::Graphics => match self.graphics_family_index {
                    Some(i) => i,
                    None => u32::MAX,
                },
                QueueFamilyType::Present => match self.present_family_index {
                    Some(i) => i,
                    None => u32::MAX,
                },
            },
    {
        match family_type {
            QueueFamilyType::Graphics => match self.graphics_family_index {
                Some(i) => i,
                None => u32::MAX,
            },
            QueueFamilyType::Present => match self.present_family_index {
                Some(i) => i,
                None => u32::MAX,
            },
        }
    }

    /// The chosen indices without repetition, graphics first: one queue is
    /// created per entry.
    pub fn get_unique_indices(&self) -> (r: Vec<u32>)
        ensures
            r@ == unique_family_indices(*self),
    {
        let mut r: Vec<u32> = Vec::new();
        if let Some(g) = self.graphics_family_index {
            r.push(g);
        }
        if let Some(p) = self.present_family_index {
            if self.graphics_family_index != Some(p) {
                r.push(p);
            }
        }
        proof {
            assert(r@ =~= unique_family_indices(*self));
        }
        r
    }
}

/// What one queue family of a device offers.
#[derive(Clone, Copy, Debug, PartialEq, Eq, Structural)]
pub struct QueueFamilyReport {
    pub supports_graphics: bool,
    pub supports_present: bool,
}

/// Whether some family up to `n` (exclusive) supports graphics.
pub open spec fn graphics_before(families: Seq<QueueFamilyReport>, n: int) -> bool {
    exists|i: int| 0 <= i < n && #[trigger] families[i].supports_graphics
}

/// Whether some family up to `n` (exclusive) supports graphics and can
/// present to the surface.
pub open spec fn graphics_present_before(families: Seq<QueueFamilyReport>, n: int) -> bool {
    exists|i: int|
        0 <= i < n && #[trigger] families[i].supports_graphics && families[i].supports_present
}

/// `o` is the first index of a family that supports graphics and can
/// present, or `None` when there is none.
pub open spec fn first_graphics_present(families: Seq<QueueFamilyReport>, o: Option<u32>) -> bool {
    match o {
        Some(i) => i < families.len() && families[i as int].supports_graphics
            && families[i as int].supports_present && !graphics_present_before(families, i as int),
        None => !graphics_present_before(families, families.len() as int),
    }
}

/// Picks the first family that both supports graphics and can present, and
/// uses it for both roles; neither is chosen when no family does both.
pub fn select_queue_families(families: &Vec<QueueFamilyReport>) -> (r: PhysicalDeviceQueueFamilies)
    requires
        families@.len() <= u32::MAX,
    ensures
        first_graphics_present(families@, r.graphics_family_index),
        r.present_family_index == r.graphics_family_index,
{
    let mut i: usize = 0;
    while i < families.len()
        invariant
            i <= families@.len() <= u32::MAX,
            !graphics_present_before(families@, i as int),
        decreases families@.len() - i,
    {
        let family = families[i];
        if family.supports_graphics && family.supports_present {
            return PhysicalDeviceQueueFamilies {
                graphics_family_index: Some(i as u32),
                present_family_index: Some(i as u32),
            };
        }
        proof {
            assert forall|k: int|
                0 <= k < i + 1 implies !(#[trigger] families@[k].supports_graphics
                && families@[k].supports_present) by {
                if k < i {
                    assert(!graphics_present_before(families@, i as int));
                }
            }
        }
        i += 1;
    }
    PhysicalDeviceQueueFamilies::new()
}

/// Whether two names (the bytes of an extension or layer name) are equal.
pub fn names_equal(a: &Vec<u8>, b: &Vec<u8>) -> (r: bool)
    ensures
        r == (a@ == b@),
{
    if a.len() != b.len() {
        return false;
    }
    let mut i: usize = 0;
    while i < a.len()
        invariant
            a@.len() == b@.len(),
            i <= a@.len(),
            forall|j: int| 0 <= j < i ==> a@[j] == b@[j],
        decreases a@.len() - i,
    {
        if a[i] != b[i] {
            return false;
        }
        i += 1;
    }
    proof {
        assert(a@ =~= b@);
    }
    true
}

/// Whether `name` is among `available`.
pub open spec fn name_listed(name: Seq<u8>, available: Seq<Vec<u8>>) -> bool {
    exists|k: int| 0 <= k < available.len() && #[trigger] available[k]@ == name
}

/// Whether every required name is available.
pub open spec fn all_listed(required: Seq<Vec<u8>>, available: Seq<Vec<u8>>) -> bool {
    forall|i: int| 0 <= i < required.len() ==> name_listed(#[trigger] required[i]@, available)
}

/// The position of the first required name that `available` lacks, or
/// `None` when all are there.
pub fn first_missing_name(required: &Vec<Vec<u8>>, available: &Vec<Vec<u8>>) -> (r: Option<usize>)
    ensures
        r is None <==> all_listed(required@, available@),
        r matches Some(i) ==> i < required@.len() && !name_listed(required@[i as int]@, available@)
            && forall|j: int| 0 <= j < i ==> name_listed(#[trigger] required@[j]@, available@),
{
    let mut i: usize = 0;
    while i < required.len()
        invariant
            i <= required@.len(),
            forall|j: int| 0 <= j < i ==> name_listed(#[trigger] required@[j]@, available@),
        decreases required@.len() - i,
    {
        let mut found = false;
        let mut k: usize = 0;
        while k < available.len()
            invariant
                i < required@.len(),
                k <= available@.len(),
                found <==> exists|m: int| 0 <= m < k && #[trigger] available@[m]@ == required@[i as int]@,
            decreases available@.len() - k,
        {
            if names_equal(&available[k], &required[i]) {
                found = true;
            }
            k += 1;
        }
        if !found {
            proof {
                assert(!name_listed(required@[i as int]@, available@));
            }
            return Some(i);
        }
        i += 1;
    }
    None
}

/// The device features the renderer relies on.
#[derive(Clone, Copy, Debug, PartialEq, Eq, Structural)]
pub enum RequiredFeature {
    GeometryShader,
    DynamicRendering,
    Synchronization2,
    BufferDeviceAddress,
    DescriptorIndexing,
}

/// The features a device reports, as named booleans.
#[derive(Clone, Copy, Debug, PartialEq, Eq, Structural)]
pub struct DeviceFeatures {
    pub geometry_shader: bool,
    pub dynamic_rendering: bool,
    pub synchronization2: bool,
    pub buffer_device_address: bool,
    pub descriptor_indexing: bool,
}

/// The first required feature that `f` lacks, in the order of
/// `RequiredFeature`, or `None` when it has them all.
pub open spec fn first_missing_feature(f: DeviceFeatures) -> Option<RequiredFeature> {
    if !f.geometry_shader {
        Some(RequiredFeature::GeometryShader)
    } else if !f.dynamic_rendering {
        Some(RequiredFeature::DynamicRendering)
    } else if !f.synchronization2 {
        Some(RequiredFeature::Synchronization2)
    } else if !f.buffer_device_address {
        Some(RequiredFeature::BufferDeviceAddress)
    } else if !f.descriptor_indexing {
        Some(RequiredFeature::DescriptorIndexing)
    } else {
        None
    }
}

/// The class of a physical device.
#[derive(Clone, Copy, Debug, PartialEq, Eq, Structural)]
pub enum DeviceType {
    Other,
    IntegratedGpu,
    DiscreteGpu,
    VirtualGpu,
    Cpu,
}

/// The one property devices are ranked by.
#[derive(Clone, Copy, Debug, PartialEq, Eq, Structural)]
pub struct PhysicalDeviceProperties {
    pub max_image_dimension_2d: u32,
}

impl PhysicalDeviceProperties {
    pub fn new(max_image_dimension_2d: u32) -> (r: PhysicalDeviceProperties)
        ensures
            r.max_image_dimension_2d == max_image_dimension_2d,
    {
        PhysicalDeviceProperties { max_image_dimension_2d }
    }
}

/// Everything selection needs to know of one physical device.
#[derive(Clone, Debug)]
pub struct PhysicalDeviceReport {
    /// The driver's handle of the device, as a raw integer.
    pub handle: u64,
    pub device_type: DeviceType,
    pub properties: PhysicalDeviceProperties,
    pub features: DeviceFeatures,
    pub extensions: Vec<Vec<u8>>,
    pub queue_families: Vec<QueueFamilyReport>,
}

/// Why a device does not qualify.
#[derive(Clone, Debug, PartialEq, Eq)]
pub enum DeviceConfigError {
    /// It is not a discrete GPU.
    PropertyNotFulfilled,
    FeatureNotSupported(RequiredFeature),
    ExtensionNotSupported(Vec<u8>),
    QueueFamilyNotSupported(QueueFamilyType),
}

/// A device that passed every check, with its chosen queue families.
#[derive(Clone, Copy, Debug, PartialEq, Eq, Structural)]
pub struct ValidPhysicalDevice {
    pub handle: u64,
    pub properties: PhysicalDeviceProperties,
    pub queue_families: PhysicalDeviceQueueFamilies,
}

impl ValidPhysicalDevice {
    pub fn new(
        handle: u64,
        properties: PhysicalDeviceProperties,
        queue_families: PhysicalDeviceQueueFamilies,
    ) -> (r: ValidPhysicalDevice)
        ensures
            r.handle == handle,
            r.properties == properties,
            r.queue_families == queue_families,
    {
        ValidPhysicalDevice { handle, properties, queue_families }
    }
}

/// Whether some queue family supports graphics.
pub fn any_graphics_family(families: &Vec<QueueFamilyReport>) -> (r: bool)
    ensures
        r == graphics_before(families@, families@.len() as int),
{
    let mut i: usize = 0;
    while i < families.len()
        invariant
            i <= families@.len(),
            !graphics_before(families@, i as int),
        decreases families@.len() - i,
    {
        if families[i].supports_graphics {
            return true;
        }
        i += 1;
    }
    false
}

/// Whether a device qualifies: a discrete GPU with every required feature
/// and extension, and a queue family that supports graphics and can present.
pub open spec fn device_suitable(d: PhysicalDeviceReport, required: Seq<Vec<u8>>) -> bool {
    &&& d.device_type == DeviceType::DiscreteGpu
    &&& first_missing_feature(d.features) is None
    &&& all_listed(required, d.extensions@)
    &&& graphics_present_before(d.queue_families@, d.queue_families@.len() as int)
}

/// Checks one device against the requirements, in this order: device class,
/// features, extensions, queue families. The first check that fails names
/// the error.
pub fn validate_physical_device(d: &PhysicalDeviceReport, required_extensions: &Vec<Vec<u8>>) -> (r:
    Result<ValidPhysicalDevice, DeviceConfigError>)
    requires
        d.queue_families@.len() <= u32::MAX,
    ensures
        r is Ok <==> device_suitable(*d, required_extensions@),
        r matches Ok(v) ==> v.handle == d.handle && v.properties == d.properties && first_graphics_present(
            d.queue_families@,
            v.queue_families.graphics_family_index,
        ) && v.queue_families.present_family_index == v.queue_families.graphics_family_index,
        d.device_type != DeviceType::DiscreteGpu ==> r == Err::<ValidPhysicalDevice, DeviceConfigError>(
            DeviceConfigError::PropertyNotFulfilled,
        ),
        d.device_type == DeviceType::DiscreteGpu && first_missing_feature(d.features) is Some ==> r
            == Err::<ValidPhysicalDevice, DeviceConfigError>(
            DeviceConfigError::FeatureNotSupported(first_missing_feature(d.features)->Some_0),
        ),
        d.device_type == DeviceType::DiscreteGpu && first_missing_feature(d.features) is None
            && !all_listed(required_extensions@, d.extensions@) ==> (r matches Err(
            DeviceConfigError::ExtensionNotSupported(name),
        ) && exists|i: int|
            0 <= i < required_extensions@.len() && #[trigger] required_extensions@[i]@ == name@
                && !name_listed(name@, d.extensions@) && forall|j: int|
                0 <= j < i ==> name_listed(#[trigger] required_extensions@[j]@, d.extensions@)),
        d.device_type == DeviceType::DiscreteGpu && first_missing_feature(d.features) is None
            && all_listed(required_extensions@, d.extensions@) && !graphics_before(
            d.queue_families@,
            d.queue_families@.len() as int,
        ) ==> r == Err::<ValidPhysicalDevice, DeviceConfigError>(
            DeviceConfigError::QueueFamilyNotSupported(QueueFamilyType::Graphics),
        ),
        d.device_type == DeviceType::DiscreteGpu && first_missing_feature(d.features) is None
            && all_listed(required_extensions@, d.extensions@) && graphics_before(
            d.queue_families@,
            d.queue_families@.len() as int,
        ) && !graphics_present_before(d.queue_families@, d.queue_families@.len() as int) ==> r == Err::<
            ValidPhysicalDevice,
            DeviceConfigError,
        >(DeviceConfigError::QueueFamilyNotSupported(QueueFamilyType::Present)),
{
    if d.device_type != DeviceType::DiscreteGpu {
        return Err(DeviceConfigError::PropertyNotFulfilled);
    }
    let f = d.features;
    if !f.geometry_shader {
        return Err(DeviceConfigError::FeatureNotSupported(RequiredFeature::GeometryShader));
    }
    if !f.dynamic_rendering {
        return Err(DeviceConfigError::FeatureNotSupported(RequiredFeature::DynamicRendering));
    }
    if !f.synchronization2 {
        return Err(DeviceConfigError::FeatureNotSupported(RequiredFeature::Synchronization2));
    }
    if !f.buffer_device_address {
        return Err(DeviceConfigError::FeatureNotSupported(RequiredFeature::BufferDeviceAddress));
    }
    if !f.descriptor_indexing {
        return Err(DeviceConfigError::FeatureNotSupported(RequiredFeature::DescriptorIndexing));
    }
    match first_missing_name(required_extensions, &d.extensions) {
        Some(i) => {
            let name = required_extensions[i].clone();
            proof {
                assert(name@ =~= required_extensions@[i as int]@);
            }
            return Err(DeviceConfigError::ExtensionNotSupported(name));
        },
        None => {},
    }
    let queue_families = select_queue_families(&d.queue_families);
    if queue_families.graphics_family_index.is_none() {
        if any_graphics_family(&d.queue_families) {
            return Err(DeviceConfigError::QueueFamilyNotSupported(QueueFamilyType::Present));
        }
        return Err(DeviceConfigError::QueueFamilyNotSupported(QueueFamilyType::Graphics));
    }
    Ok(ValidPhysicalDevice::new(d.handle, d.properties, queue_families))
}

/// The ranking score of a device: its largest supported 2D image dimension.
pub open spec fn device_score(d: PhysicalDeviceReport) -> u32 {
    d.properties.max_image_dimension_2d
}

/// Picks the device to use: among the qualifying ones, the one with the
/// largest score; among equal scores, the first in enumeration order.
/// `None` when no device qualifies.
pub fn select_physical_device(devices: &Vec<PhysicalDeviceReport>, required_extensions: &Vec<
    Vec<u8>,
>) -> (r: Option<usize>)
    requires
        forall|i: int|
            0 <= i < devices@.len() ==> (#[trigger] devices@[i]).queue_families@.len() <= u32::MAX,
    ensures
        r is None <==> forall|i: int|
            0 <= i < devices@.len() ==> !device_suitable(
                #[trigger] devices@[i],
                required_extensions@,
            ),
        r matches Some(s) ==> s < devices@.len() && device_suitable(
            devices@[s as int],
            required_extensions@,
        ) && (forall|j: int|
            0 <= j < devices@.len() && device_suitable(#[trigger] devices@[j], required_extensions@)
                ==> device_score(devices@[j]) <= device_score(devices@[s as int])) && (forall|j: int|
            0 <= j < s && device_suitable(#[trigger] devices@[j], required_extensions@)
                ==> device_score(devices@[j]) < device_score(devices@[s as int])),
{
    let mut best: Option<usize> = None;
    let mut i: usize = 0;
    while i < devices.len()
        invariant
            i <= devices@.len(),
            forall|k: int|
                0 <= k < devices@.len() ==> (#[trigger] devices@[k]).queue_families@.len()
                    <= u32::MAX,
            best is None ==> forall|j: int|
                0 <= j < i ==> !device_suitable(#[trigger] devices@[j], required_extensions@),
            best matches Some(s) ==> s < i && device_suitable(
                devices@[s as int],
                required_extensions@,
            ) && (forall|j: int|
                0 <= j < i && device_suitable(#[trigger] devices@[j], required_extensions@)
                    ==> device_score(devices@[j]) <= device_score(devices@[s as int])) && (forall|
                j: int,
            |
                0 <= j < s && device_suitable(#[trigger] devices@[j], required_extensions@)
                    ==> device_score(devices@[j]) < device_score(devices@[s as int])),
        decreases devices@.len() - i,
    {
        let candidate = validate_physical_device(&devices[i], required_extensions);
        if candidate.is_ok() {
            match best {
                None => {
                    best = Some(i);
                },
                Some(s) => {
                    if devices[i].properties.max_image_dimension_2d
                        > devices[s].properties.max_image_dimension_2d {
                        best = Some(i);
                    }
                },
            }
        }
        i += 1;
    }
    best
}

/// Why an instance cannot be created with the requested layers and
/// extensions.
#[derive(Clone, Debug, PartialEq, Eq)]
pub enum InstanceConfigError {
    LayerNotSupported(Vec<u8>),
    ExtensionNotSupported(Vec<u8>),
}

/// Checks the requested instance layers, then the requested instance
/// extensions, against what the loader offers; the first one missing names
/// the error.
pub fn validate_instance_config(
    layers: &Vec<Vec<u8>>,
    available_layers: &Vec<Vec<u8>>,
    extensions: &Vec<Vec<u8>>,
    available_extensions: &Vec<Vec<u8>>,
) -> (r: Result<(), InstanceConfigError>)
    ensures
        r is Ok <==> all_listed(layers@, available_layers@) && all_listed(
            extensions@,
            available_extensions@,
        ),
        !all_listed(layers@, available_layers@) ==> (r matches Err(
            InstanceConfigError::LayerNotSupported(name),
        ) && exists|i: int|
            0 <= i < layers@.len() && #[trigger] layers@[i]@ == name@ && !name_listed(
                name@,
                available_layers@,
            ) && forall|j: int| 0 <= j < i ==> name_listed(#[trigger] layers@[j]@, available_layers@)),
        all_listed(layers@, available_layers@) && !all_listed(extensions@, available_extensions@)
            ==> (r matches Err(InstanceConfigError::ExtensionNotSupported(name)) && exists|i: int|
            0 <= i < extensions@.len() && #[trigger] extensions@[i]@ == name@ && !name_listed(
                name@,
                available_extensions@,
            ) && forall|j: int|
                0 <= j < i ==> name_listed(#[trigger] extensions@[j]@, available_extensions@)),
{
    match first_missing_name(layers, available_layers) {
        Some(i) => {
            let name = layers[i].clone();
            proof {
                assert(name@ =~= layers@[i as int]@);
            }
            return Err(InstanceConfigError::LayerNotSupported(name));
        },
        None => {},
    }
    match first_missing_name(extensions, available_extensions) {
        Some(i) => {
            let name = extensions[i].clone();
            proof {
                assert(name@ =~= extensions@[i as int]@);
            }
            Err(InstanceConfigError::ExtensionNotSupported(name))
        },
        None => Ok(()),
    }
}

} // verus!
