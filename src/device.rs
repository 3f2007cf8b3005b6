use vstd::prelude::*;

use crate::selection::QueueFamilySelection;

verus! {

/// What logical-device creation asks the driver for: one queue, at full
/// priority, from the selected family, with clip distances enabled and the
/// caller's extensions.
pub struct DeviceRequest {
    pub physical_device: usize,
    pub queue_family_index: u32,
    pub queue_count: u32,
    pub queue_index: u32,
    pub shader_clip_distance: bool,
    pub extensions: Vec<String>,
}

/// The logical-device request for a selection. The extension list is the
/// caller's: empty where there is no presentation surface.
pub fn device_request(selection: QueueFamilySelection, extensions: Vec<String>) -> (r: DeviceRequest)
    ensures
        r.physical_device == selection.device,
        r.queue_family_index == selection.family,
        r.queue_count == 1,
        r.queue_index == 0,
        r.shader_clip_distance,
        r.extensions@ == extensions@,
{
    DeviceRequest {
        physical_device: selection.device,
        queue_family_index: selection.family,
        queue_count: 1,
        queue_index: 0,
        shader_clip_distance: true,
        extensions,
    }
}

} // verus!
