use vstd::prelude::*;

use crate::error::BootError;

verus! {

/// Queue-family flag bit for graphics execution.
pub const QUEUE_GRAPHICS_BIT: u32 = 1;

/// What the selector reads of one queue family of one physical device.
#[derive(Debug, Clone, Copy, PartialEq, Eq, Structural)]
pub struct FamilyDescriptor {
    /// The family's raw capability flags.
    pub queue_flags: u32,
    /// Whether the family can present to the caller's target, where that was
    /// queried; `None` where it was not.
    pub presentation: Option<bool>,
}

/// A physical device (by enumeration position) and one of its queue families.
#[derive(Debug, Clone, Copy, PartialEq, Eq, Structural)]
pub struct QueueFamilySelection {
    pub device: usize,
    pub family: u32,
}

/// The family's flags include graphics execution.
pub open spec fn has_graphics(f: FamilyDescriptor) -> bool {
    f.queue_flags & QUEUE_GRAPHICS_BIT == QUEUE_GRAPHICS_BIT
}

/// The capability predicate: graphics execution, and presentation support on
/// the target where a target was supplied.
pub open spec fn satisfies(f: FamilyDescriptor, target_supplied: bool) -> bool {
    has_graphics(f) && (!target_supplied || f.presentation == Some(true))
}

/// `(d, f)` names a family of the enumeration.
pub open spec fn in_range(devices: Seq<Seq<FamilyDescriptor>>, d: int, f: int) -> bool {
    0 <= d < devices.len() && 0 <= f < devices[d].len()
}

/// `(d1, f1)` comes before `(d2, f2)` in enumeration order.
pub open spec fn precedes(d1: int, f1: int, d2: int, f2: int) -> bool {
    d1 < d2 || (d1 == d2 && f1 < f2)
}

/// Some family of the enumeration satisfies the predicate.
pub open spec fn any_suitable(devices: Seq<Seq<FamilyDescriptor>>, target_supplied: bool) -> bool {
    exists|d: int, f: int| in_range(devices, d, f) && #[trigger] satisfies(devices[d][f], target_supplied)
}

/// `(d, f)` is the first family in enumeration order that satisfies the predicate.
pub open spec fn is_first_match(
    devices: Seq<Seq<FamilyDescriptor>>,
    target_supplied: bool,
    d: int,
    f: int,
) -> bool {
    &&& in_range(devices, d, f)
    &&& satisfies(devices[d][f], target_supplied)
    &&& forall|d2: int, f2: int|
        in_range(devices, d2, f2) && precedes(d2, f2, d, f) ==> !#[trigger] satisfies(
            devices[d2][f2],
            target_supplied,
        )
}

/// The enumeration as a sequence of family sequences.
pub open spec fn view_devices(devices: &Vec<Vec<FamilyDescriptor>>) -> Seq<Seq<FamilyDescriptor>> {
    devices@.map_values(|fs: Vec<FamilyDescriptor>| fs@)
}

fn family_is_suitable(f: &FamilyDescriptor, target_supplied: bool) -> (r: bool)
    ensures
        r == satisfies(*f, target_supplied),
{
    let graphics = f.queue_flags & QUEUE_GRAPHICS_BIT == QUEUE_GRAPHICS_BIT;
    let present = match f.presentation {
        Some(p) => p,
        None => false,
    };
    graphics && (!target_supplied || present)
}

/// Scans the families of all devices in enumeration order (devices first, then
/// family index) and returns the first one with graphics execution and, where
/// a presentation target was supplied, presentation support on it.
pub fn select_queue_family(devices: &Vec<Vec<FamilyDescriptor>>, target_supplied: bool) -> (r:
    Result<QueueFamilySelection, BootError>)
    requires
        forall|d: int| 0 <= d < devices@.len() ==> #[trigger] devices@[d]@.len() <= u32::MAX,
    ensures
        match r {
            Ok(sel) => is_first_match(
                view_devices(devices),
                target_supplied,
                sel.device as int,
                sel.family as int,
            ),
            Err(e) => e == BootError::NoSuitableDevice && !any_suitable(
                view_devices(devices),
                target_supplied,
            ),
        },
{
    let ghost ds = view_devices(devices);
    let mut d: usize = 0;
    while d < devices.len()
        invariant
            ds == view_devices(devices),
            d <= devices@.len(),
            forall|d2: int| 0 <= d2 < devices@.len() ==> #[trigger] devices@[d2]@.len() <= u32::MAX,
            forall|d2: int, f2: int|
                in_range(ds, d2, f2) && d2 < d ==> !#[trigger] satisfies(ds[d2][f2], target_supplied),
        decreases devices@.len() - d,
    {
        let families = &devices[d];
        assert(ds[d as int] == families@);
        let mut f: usize = 0;
        while f < families.len()
            invariant
                ds == view_devices(devices),
                d < devices@.len(),
                families@ == ds[d as int],
                f <= families@.len(),
                families@.len() <= u32::MAX,
                forall|d2: int, f2: int|
                    in_range(ds, d2, f2) && precedes(d2, f2, d as int, f as int) ==> !#[trigger] satisfies(
                        ds[d2][f2],
                        target_supplied,
                    ),
            decreases families@.len() - f,
        {
            if family_is_suitable(&families[f], target_supplied) {
                return Ok(QueueFamilySelection { device: d, family: f as u32 });
            }
            f += 1;
        }
        d += 1;
    }
    Err(BootError::NoSuitableDevice)
}

} // verus!
