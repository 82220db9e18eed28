use vstd::prelude::*;

verus! {

/// The views of a list of names, for stating list contents over `Seq`s.
pub open spec fn names_view(names: Seq<String>) -> Seq<Seq<char>> {
    names.map_values(|s: String| s@)
}

/// Whether a list of names contains `name`.
pub open spec fn contains_name(names: Seq<Seq<char>>, name: Seq<char>) -> bool {
    exists|i: int| 0 <= i < names.len() && names[i] == name
}

/// The debug-utilities instance extension, appended unconditionally.
pub open spec fn debug_utils_name() -> Seq<char> {
    "VK_EXT_debug_utils"@
}

/// First of the two instance extensions a portability-constrained
/// platform requires.
pub open spec fn portability_enumeration_name() -> Seq<char> {
    "VK_KHR_portability_enumeration"@
}

/// Second of the two instance extensions a portability-constrained
/// platform requires.
pub open spec fn physical_device_properties2_name() -> Seq<char> {
    "VK_KHR_get_physical_device_properties2"@
}

/// The swapchain device extension, always requested.
pub open spec fn swapchain_name() -> Seq<char> {
    "VK_KHR_swapchain"@
}

/// The device extension a portability-constrained platform requires,
/// mirroring the instance-level portability flag.
pub open spec fn portability_subset_name() -> Seq<char> {
    "VK_KHR_portability_subset"@
}

/// The one validation layer the bootstrap enables.
pub open spec fn validation_layer_name() -> Seq<char> {
    "VK_LAYER_KHRONOS_validation"@
}

/// The instance extension list: the platform-required surface extensions
/// in their given order, then the debug-utilities extension, then — only
/// under the portability flag — the two portability-enumeration
/// extensions.
pub open spec fn spec_instance_extensions(required: Seq<Seq<char>>, portability: bool) -> Seq<
    Seq<char>,
> {
    required + seq![debug_utils_name()] + if portability {
        seq![portability_enumeration_name(), physical_device_properties2_name()]
    } else {
        Seq::empty()
    }
}

/// The device extension list: the swapchain extension, then — only under
/// the portability flag — the portability-subset extension.
pub open spec fn spec_device_extensions(portability: bool) -> Seq<Seq<char>> {
    seq![swapchain_name()] + if portability {
        seq![portability_subset_name()]
    } else {
        Seq::empty()
    }
}

/// The validation layer list: exactly the standard validation layer.
pub open spec fn spec_validation_layers() -> Seq<Seq<char>> {
    seq![validation_layer_name()]
}

/// Assembles the instance extension list from the platform-required
/// surface extensions and the portability flag.
pub fn instance_extensions(required: &Vec<String>, portability: bool) -> (r: Vec<String>)
    ensures
        names_view(r@) == spec_instance_extensions(names_view(required@), portability),
{
    let mut r: Vec<String> = Vec::new();
    let mut i: usize = 0;
    while i < required.len()
        invariant
            i <= required@.len(),
            r@.len() == i,
            forall|j: int| 0 <= j < i ==> r@[j]@ == required@[j]@,
        decreases required@.len() - i,
    {
        r.push(required[i].clone());
        i = i + 1;
    }
    r.push("VK_EXT_debug_utils".to_owned());
    if portability {
        r.push("VK_KHR_portability_enumeration".to_owned());
        r.push("VK_KHR_get_physical_device_properties2".to_owned());
    }
    proof {
        assert(names_view(r@) =~= spec_instance_extensions(names_view(required@), portability));
    }
    r
}

/// Assembles the device extension list from the portability flag.
pub fn device_extensions(portability: bool) -> (r: Vec<String>)
    ensures
        names_view(r@) == spec_device_extensions(portability),
{
    let mut r: Vec<String> = Vec::new();
    r.push("VK_KHR_swapchain".to_owned());
    if portability {
        r.push("VK_KHR_portability_subset".to_owned());
    }
    proof {
        assert(names_view(r@) =~= spec_device_extensions(portability));
    }
    r
}

/// The validation layers requested at instance creation.
pub fn validation_layers() -> (r: Vec<String>)
    ensures
        names_view(r@) == spec_validation_layers(),
{
    let mut r: Vec<String> = Vec::new();
    r.push("VK_LAYER_KHRONOS_validation".to_owned());
    proof {
        assert(names_view(r@) =~= spec_validation_layers());
    }
    r
}

/// The two extension-assembly sites mirror the portability flag
/// consistently: with the flag set, the instance list gains the two
/// portability-enumeration extensions and the device list the
/// portability-subset extension; with the flag clear, none of the three
/// appears in either list — provided the platform-required surface
/// extensions did not name them themselves.
pub proof fn lemma_portability_sites_consistent(required: Seq<Seq<char>>, portability: bool)
    requires
        !contains_name(required, portability_enumeration_name()),
        !contains_name(required, physical_device_properties2_name()),
        !contains_name(required, portability_subset_name()),
    ensures
        portability ==> contains_name(
            spec_instance_extensions(required, portability),
            portability_enumeration_name(),
        ),
        portability ==> contains_name(
            spec_instance_extensions(required, portability),
            physical_device_properties2_name(),
        ),
        portability ==> contains_name(
            spec_device_extensions(portability),
            portability_subset_name(),
        ),
        !portability ==> !contains_name(
            spec_instance_extensions(required, portability),
            portability_enumeration_name(),
        ),
        !portability ==> !contains_name(
            spec_instance_extensions(required, portability),
            physical_device_properties2_name(),
        ),
        !contains_name(spec_instance_extensions(required, portability), portability_subset_name()),
        !contains_name(spec_device_extensions(portability), portability_enumeration_name()),
        !contains_name(spec_device_extensions(portability), physical_device_properties2_name()),
        !portability ==> !contains_name(
            spec_device_extensions(portability),
            portability_subset_name(),
        ),
{
    reveal_strlit("VK_EXT_debug_utils");
    reveal_strlit("VK_KHR_portability_enumeration");
    reveal_strlit("VK_KHR_get_physical_device_properties2");
    reveal_strlit("VK_KHR_swapchain");
    reveal_strlit("VK_KHR_portability_subset");
    assert(debug_utils_name().len() == 18);
    assert(portability_enumeration_name().len() == 30);
    assert(physical_device_properties2_name().len() == 38);
    assert(swapchain_name().len() == 16);
    assert(portability_subset_name().len() == 25);
    if portability {
        let exts = spec_instance_extensions(required, portability);
        assert(exts[required.len() as int + 1] == portability_enumeration_name());
        assert(exts[required.len() as int + 2] == physical_device_properties2_name());
        assert(spec_device_extensions(portability)[1] == portability_subset_name());
    }
}

} // verus!
