use vstd::prelude::*;

verus! {

/// Whether memory type `index` is one that `memory_type_bits` allows.
pub open spec fn type_allowed(memory_type_bits: u32, index: int) -> bool {
    memory_type_bits & (1u32 << (index as u32)) != 0
}

/// Whether memory type `index`, with property flags `props[index]`, suits a resource
/// that allows `memory_type_bits` and needs all of `flags`.
pub open spec fn memory_type_suits(memory_type_bits: u32, props: Seq<u32>, flags: u32, index: int) -> bool {
    type_allowed(memory_type_bits, index) && props[index] & flags == flags
}

/// The first memory type that the resource allows and that has every flag of
/// `flags`; `property_flags` holds the property flags of the device's memory types, in
/// order. `None` where none suits.
pub fn find_memory_type_index(memory_type_bits: u32, property_flags: &[u32], flags: u32) -> (r: Option<u32>)
    requires
        property_flags@.len() <= 32,
    ensures
        r matches Some(i) ==> i < property_flags@.len()
            && memory_type_suits(memory_type_bits, property_flags@, flags, i as int)
            && forall|j: int| 0 <= j < i ==> !memory_type_suits(memory_type_bits, property_flags@, flags, j),
        r is None ==> forall|j: int|
            0 <= j < property_flags@.len() ==> !memory_type_suits(memory_type_bits, property_flags@, flags, j),
{
    let mut i: usize = 0;
    while i < property_flags.len()
        invariant
            i <= property_flags@.len() <= 32,
            forall|j: int| 0 <= j < i ==> !memory_type_suits(memory_type_bits, property_flags@, flags, j),
        decreases property_flags@.len() - i,
    {
        let index = i as u32;
        if memory_type_bits & (1u32 << index) != 0 && property_flags[i] & flags == flags {
            return Some(index);
        }
        i += 1;
    }
    None
}

/// What the engine needs to know of one queue family of a physical device.
#[derive(Clone, Copy, Debug, PartialEq, Eq, Structural)]
pub struct QueueFamily {
    /// The family supports graphics operations.
    pub graphics: bool,
    /// The family can present to the window's surface.
    pub present: bool,
}

pub open spec fn family_suits(q: QueueFamily) -> bool {
    q.graphics && q.present
}

/// The first physical device, in enumeration order, with a queue family that can
/// both draw and present, and the first such family of it: `(device, family)`.
/// `devices[d]` lists the queue families of device `d`. `None` where no device has one.
pub fn select_queue_family(devices: &Vec<Vec<QueueFamily>>) -> (r: Option<(usize, u32)>)
    requires
        forall|d: int| 0 <= d < devices@.len() ==> #[trigger] devices@[d]@.len() <= u32::MAX,
    ensures
        r matches Some((d, f)) ==> d < devices@.len() && f < devices@[d as int]@.len()
            && family_suits(devices@[d as int]@[f as int])
            && (forall|e: int, g: int| 0 <= e < d && 0 <= g < devices@[e]@.len()
                ==> !family_suits(#[trigger] devices@[e]@[g]))
            && (forall|g: int| 0 <= g < f ==> !family_suits(#[trigger] devices@[d as int]@[g])),
        r is None ==> forall|e: int, g: int| 0 <= e < devices@.len() && 0 <= g < devices@[e]@.len()
            ==> !family_suits(#[trigger] devices@[e]@[g]),
{
    let mut d: usize = 0;
    while d < devices.len()
        invariant
            d <= devices@.len(),
            forall|d: int| 0 <= d < devices@.len() ==> #[trigger] devices@[d]@.len() <= u32::MAX,
            forall|e: int, g: int| 0 <= e < d && 0 <= g < devices@[e]@.len()
                ==> !family_suits(#[trigger] devices@[e]@[g]),
        decreases devices@.len() - d,
    {
        let families = &devices[d];
        let mut f: usize = 0;
        while f < families.len()
            invariant
                d < devices@.len(),
                families == devices@[d as int],
                f <= families@.len() <= u32::MAX,
                forall|g: int| 0 <= g < f ==> !family_suits(#[trigger] families@[g]),
                forall|e: int, g: int| 0 <= e < d && 0 <= g < devices@[e]@.len()
                    ==> !family_suits(#[trigger] devices@[e]@[g]),
            decreases families@.len() - f,
        {
            if families[f].graphics && families[f].present {
                return Some((d, f as u32));
            }
            f += 1;
        }
        d += 1;
    }
    None
}

/// Relies on ash's `khr::Swapchain::name`, the name of the swapchain extension.
#[verifier::external_body]
fn swapchain_extension_name() -> (r: String)
    ensures
        r@ == "VK_KHR_swapchain"@,
{
    ash::extensions::khr::Swapchain::name().to_string_lossy().into_owned()
}

/// The extensions a logical device is created with: the swapchain extension alone.
pub fn device_extensions() -> (r: Vec<String>)
    ensures
        r@.len() == 1,
        r@[0]@ == "VK_KHR_swapchain"@,
{
    let mut r: Vec<String> = Vec::new();
    r.push(swapchain_extension_name());
    r
}

} // verus!
