use vstd::prelude::*;

verus! {

/// The layers, extensions and API version a Vulkan instance is created with.
pub struct InstanceConfig {
    pub layers: Vec<String>,
    pub extensions: Vec<String>,
    pub api_version: u32,
}

/// Why no instance can be made.
#[derive(Clone, Copy, Debug, PartialEq, Eq, Structural)]
pub enum InstanceError {
    /// The windowing system does not ask for the surface extension.
    MissingSurfaceExtension,
}

/// Vulkan 1.3.0 as a packed API version number.
pub const API_VERSION_1_3: u32 = 0x0040_3000;

/// Relies on ash's `vk::make_api_version`, which packs
/// `variant << 29 | major << 22 | minor << 12 | patch`.
#[verifier::external_body]
fn make_api_version(variant: u32, major: u32, minor: u32, patch: u32) -> (r: u32)
    ensures
        r == (variant << 29u32) | (major << 22u32) | (minor << 12u32) | patch,
{
    ash::vk::make_api_version(variant, major, minor, patch)
}

/// Relies on ash's `ext::DebugUtils::name`, the name of the debug utils extension.
#[verifier::external_body]
fn debug_utils_extension_name() -> (r: String)
    ensures
        r@ == "VK_EXT_debug_utils"@,
{
    ash::extensions::ext::DebugUtils::name().to_string_lossy().into_owned()
}

/// The instance for a window whose system asks for `required_extensions`: the
/// Khronos validation layer, those extensions followed by the debug utils extension,
/// and Vulkan 1.3. Fails where the surface extension is not among them.
pub fn instance_config(required_extensions: Vec<String>) -> (r: Result<InstanceConfig, InstanceError>)
    ensures
        (exists|i: int| 0 <= i < required_extensions@.len()
            && #[trigger] required_extensions@[i]@ == "VK_KHR_surface"@) <==> r is Ok,
        r matches Ok(c) ==> c.layers@.len() == 1 && c.layers@[0]@ == "VK_LAYER_KHRONOS_validation"@
            && c.extensions@.len() == required_extensions@.len() + 1
            && c.extensions@.drop_last() == required_extensions@
            && c.extensions@.last()@ == "VK_EXT_debug_utils"@
            && c.api_version == API_VERSION_1_3,
{
    let surface = "VK_KHR_surface".to_owned();
    let mut found = false;
    let mut i: usize = 0;
    while i < required_extensions.len()
        invariant
            i <= required_extensions@.len(),
            surface@ == "VK_KHR_surface"@,
            found <==> exists|j: int| 0 <= j < i && #[trigger] required_extensions@[j]@ == "VK_KHR_surface"@,
        decreases required_extensions@.len() - i,
    {
        if required_extensions[i] == surface {
            found = true;
        }
        i += 1;
    }
    if !found {
        return Err(InstanceError::MissingSurfaceExtension);
    }
    let mut layers: Vec<String> = Vec::new();
    layers.push("VK_LAYER_KHRONOS_validation".to_owned());
    let mut extensions = required_extensions;
    extensions.push(debug_utils_extension_name());
    let api_version = make_api_version(0, 1, 3, 0);
    assert(api_version == 0x0040_3000u32) by (bit_vector)
        requires
            api_version == (0u32 << 29u32) | (1u32 << 22u32) | (3u32 << 12u32) | 0u32,
    ;
    Ok(InstanceConfig { layers, extensions, api_version })
}

} // verus!
