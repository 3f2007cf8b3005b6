use vstd::prelude::*;

use crate::error::BootError;

verus! {

/// The packed form of a Vulkan API version.
pub open spec fn packed_version(variant: u32, major: u32, minor: u32, patch: u32) -> u32 {
    (variant << 29u32) | (major << 22u32) | (minor << 12u32) | patch
}

/// Relies on ash::vk::make_api_version: it packs the four parts by shifting
/// them into place and or-ing them together.
pub assume_specification[ ash::vk::make_api_version ](
    variant: u32,
    major: u32,
    minor: u32,
    patch: u32,
) -> (r: u32)
    ensures
        r == packed_version(variant, major, minor, patch),
;

/// The version asked for when the loader cannot report one: 1.0.0.
pub open spec fn baseline_version() -> u32 {
    packed_version(0, 1, 0, 0)
}

/// The API version to request: the one the loader reports, or the 1.0.0
/// baseline where the loader predates version queries.
pub fn negotiate_api_version(reported: Option<u32>) -> (r: u32)
    ensures
        r == match reported {
            Some(v) => v,
            None => baseline_version(),
        },
{
    match reported {
        Some(v) => v,
        None => ash::vk::make_api_version(0, 1, 0, 0),
    }
}

/// `name` is among `available`.
pub open spec fn listed(available: Seq<String>, name: Seq<char>) -> bool {
    exists|i: int| 0 <= i < available.len() && (#[trigger] available[i])@ == name
}

/// Every requested name is among the available ones.
pub open spec fn all_listed(requested: Seq<String>, available: Seq<String>) -> bool {
    forall|i: int| 0 <= i < requested.len() ==> listed(available, (#[trigger] requested[i])@)
}

fn is_listed(available: &Vec<String>, name: &String) -> (r: bool)
    ensures
        r == listed(available@, name@),
{
    let mut i: usize = 0;
    while i < available.len()
        invariant
            i <= available@.len(),
            forall|j: int| 0 <= j < i ==> (#[trigger] available@[j])@ != name@,
        decreases available@.len() - i,
    {
        if available[i] == *name {
            return true;
        }
        i += 1;
    }
    false
}

/// The position of the first requested name that is not available, if any.
pub fn first_missing(requested: &Vec<String>, available: &Vec<String>) -> (r: Option<usize>)
    ensures
        match r {
            Some(i) => {
                &&& i < requested@.len()
                &&& !listed(available@, requested@[i as int]@)
                &&& forall|j: int| 0 <= j < i ==> listed(available@, (#[trigger] requested@[j])@)
            },
            None => all_listed(requested@, available@),
        },
{
    let mut i: usize = 0;
    while i < requested.len()
        invariant
            i <= requested@.len(),
            forall|j: int| 0 <= j < i ==> listed(available@, (#[trigger] requested@[j])@),
        decreases requested@.len() - i,
    {
        if !is_listed(available, &requested[i]) {
            return Some(i);
        }
        i += 1;
    }
    None
}

/// Checks that every requested layer and extension is available. The
/// request is never silently reduced: anything missing is an
/// initialization error.
pub fn check_availability(
    layers: &Vec<String>,
    available_layers: &Vec<String>,
    extensions: &Vec<String>,
    available_extensions: &Vec<String>,
) -> (r: Result<(), BootError>)
    ensures
        r.is_ok() <==> all_listed(layers@, available_layers@) && all_listed(
            extensions@,
            available_extensions@,
        ),
        r.is_err() ==> r == Err::<(), BootError>(BootError::Initialization),
{
    if first_missing(layers, available_layers).is_some() {
        return Err(BootError::Initialization);
    }
    if first_missing(extensions, available_extensions).is_some() {
        return Err(BootError::Initialization);
    }
    Ok(())
}

} // verus!

verus! {

/// What instance creation asks the driver for.
pub struct InstanceRequest {
    pub application_name: String,
    pub engine_name: String,
    pub engine_version: u32,
    pub api_version: u32,
    pub layers: Vec<String>,
    pub extensions: Vec<String>,
}

pub open spec fn validation_layer() -> Seq<char> {
    "VK_LAYER_KHRONOS_validation"@
}

pub open spec fn debug_utils_extension() -> Seq<char> {
    "VK_EXT_debug_utils"@
}

/// The instance request: the validation layer and the debug-utils extension,
/// bound to the negotiated API version.
pub fn instance_request(reported_version: Option<u32>) -> (r: InstanceRequest)
    ensures
        r.application_name@ == "Startino"@,
        r.engine_name@ == "Startino Engine"@,
        r.engine_version == packed_version(1, 1, 0, 0),
        r.api_version == match reported_version {
            Some(v) => v,
            None => baseline_version(),
        },
        r.layers@.len() == 1,
        r.layers@[0]@ == validation_layer(),
        r.extensions@.len() == 1,
        r.extensions@[0]@ == debug_utils_extension(),
{
    let layer = "VK_LAYER_KHRONOS_validation".to_owned();
    let extension = "VK_EXT_debug_utils".to_owned();
    let mut layers: Vec<String> = Vec::new();
    layers.push(layer);
    let mut extensions: Vec<String> = Vec::new();
    extensions.push(extension);
    InstanceRequest {
        application_name: "Startino".to_owned(),
        engine_name: "Startino Engine".to_owned(),
        engine_version: ash::vk::make_api_version(1, 1, 0, 0),
        api_version: negotiate_api_version(reported_version),
        layers,
        extensions,
    }
}

/// Builds the instance request and checks it against what the loader offers.
/// Fails with an initialization error, and returns no request, where the
/// validation layer or the debug-utils extension is not offered.
pub fn plan_instance(
    reported_version: Option<u32>,
    available_layers: &Vec<String>,
    available_extensions: &Vec<String>,
) -> (r: Result<InstanceRequest, BootError>)
    ensures
        r.is_ok() <==> listed(available_layers@, validation_layer()) && listed(
            available_extensions@,
            debug_utils_extension(),
        ),
        r matches Err(e) ==> e == BootError::Initialization,
        r matches Ok(req) ==> {
            &&& req.api_version == match reported_version {
                Some(v) => v,
                None => baseline_version(),
            }
            &&& req.layers@.len() == 1
            &&& req.layers@[0]@ == validation_layer()
            &&& req.extensions@.len() == 1
            &&& req.extensions@[0]@ == debug_utils_extension()
        },
{
    let req = instance_request(reported_version);
    match check_availability(&req.layers, available_layers, &req.extensions, available_extensions) {
        Ok(()) => {
            assert(req.layers@[0]@ == validation_layer());
            Ok(req)
        },
        Err(e) => {
            assert(!all_listed(req.layers@, available_layers@) || !all_listed(
                req.extensions@,
                available_extensions@,
            ));
            Err(e)
        },
    }
}

} // verus!
