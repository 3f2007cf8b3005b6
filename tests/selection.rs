use startino::{select_queue_family, BootError, FamilyDescriptor, QueueFamilySelection};

fn family(queue_flags: u32, presentation: Option<bool>) -> FamilyDescriptor {
    FamilyDescriptor { queue_flags, presentation }
}

#[test]
fn picks_presenting_graphics_family_on_second_device() {
    let devices = vec![vec![family(0x2, Some(true))], vec![family(0x1 | 0x2, Some(true))]];
    let sel = select_queue_family(&devices, true).unwrap();
    assert_eq!(sel, QueueFamilySelection { device: 1, family: 0 });
}

#[test]
fn no_graphics_family_is_no_suitable_device() {
    let devices = vec![vec![family(0x2, None), family(0x4, None)], vec![family(0x8, None)]];
    assert_eq!(select_queue_family(&devices, false), Err(BootError::NoSuitableDevice));
}

#[test]
fn empty_enumeration_is_no_suitable_device() {
    let devices: Vec<Vec<FamilyDescriptor>> = vec![];
    assert_eq!(select_queue_family(&devices, false), Err(BootError::NoSuitableDevice));
    let no_families: Vec<Vec<FamilyDescriptor>> = vec![vec![], vec![]];
    assert_eq!(select_queue_family(&no_families, true), Err(BootError::NoSuitableDevice));
}

#[test]
fn first_match_wins_over_later_ones() {
    let devices = vec![
        vec![family(0x2, None), family(0x3, None), family(0x1, None)],
        vec![family(0x1, None)],
    ];
    let sel = select_queue_family(&devices, false).unwrap();
    assert_eq!(sel, QueueFamilySelection { device: 0, family: 1 });
}

#[test]
fn target_requires_presentation_on_that_family() {
    let devices = vec![vec![family(0x1, Some(false)), family(0x1, None), family(0x1, Some(true))]];
    let sel = select_queue_family(&devices, true).unwrap();
    assert_eq!(sel, QueueFamilySelection { device: 0, family: 2 });
}

#[test]
fn no_target_does_not_require_presentation() {
    let devices = vec![vec![family(0x1, Some(false)), family(0x1, Some(true))]];
    let sel = select_queue_family(&devices, false).unwrap();
    assert_eq!(sel, QueueFamilySelection { device: 0, family: 0 });
}

#[test]
fn graphics_without_presentation_fails_with_target() {
    let devices = vec![vec![family(0x1, Some(false))], vec![family(0x7, None)]];
    assert_eq!(select_queue_family(&devices, true), Err(BootError::NoSuitableDevice));
}
