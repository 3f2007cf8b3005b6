use startino::{
    device_request, failure_kind, is_valid_teardown, plan_instance, reversed, select_queue_family, Action,
    BootError, Bootstrap, FamilyDescriptor, HandleKind, Phase, QueueFamilySelection,
};

#[test]
fn full_sequence_reaches_logical_device() {
    let mut b = Bootstrap::new();
    let expected = [Action::CreateInstance, Action::AttachDiagnostics, Action::SelectDevice, Action::CreateDevice];
    for a in expected {
        assert_eq!(b.next_action(), a);
        b.record(Ok(()));
    }
    assert_eq!(b.phase, Phase::LogicalDeviceCreated);
    assert_eq!(b.next_action(), Action::Finished);
}

#[test]
fn selection_failure_stops_before_device_creation() {
    let devices = vec![vec![FamilyDescriptor { queue_flags: 0x2, presentation: None }]];
    let mut b = Bootstrap::new();
    b.record(Ok(()));
    b.record(Ok(()));
    assert_eq!(b.next_action(), Action::SelectDevice);
    let outcome = select_queue_family(&devices, false).map(|_| ());
    assert_eq!(outcome, Err(BootError::NoSuitableDevice));
    b.record(outcome);
    assert_eq!(b.next_action(), Action::Stop);
    assert_eq!(b.phase, Phase::DiagnosticsAttached);
    b.record(Ok(()));
    assert_eq!(b.phase, Phase::DiagnosticsAttached);
    assert_eq!(b.failure, Some(BootError::NoSuitableDevice));
    assert!(!b.created_handles().contains(&HandleKind::LogicalDevice));
}

#[test]
fn missing_layer_leaves_no_instance_and_no_diagnostics() {
    let layers = vec!["VK_LAYER_LUNARG_api_dump".to_string()];
    let exts = vec!["VK_EXT_debug_utils".to_string()];
    let mut b = Bootstrap::new();
    assert_eq!(b.next_action(), Action::CreateInstance);
    let outcome = plan_instance(None, &layers, &exts).map(|_| ());
    assert_eq!(outcome, Err(BootError::Initialization));
    b.record(outcome);
    assert_eq!(b.phase, Phase::Uninitialized);
    assert_eq!(b.next_action(), Action::Stop);
    assert!(b.created_handles().is_empty());
}

#[test]
fn teardown_is_reverse_of_creation() {
    let mut b = Bootstrap::new();
    for _ in 0..4 {
        b.record(Ok(()));
    }
    let created = b.created_handles();
    assert_eq!(created, vec![HandleKind::Instance, HandleKind::DiagnosticsMessenger, HandleKind::LogicalDevice]);
    let order = b.teardown_order();
    assert_eq!(order, vec![HandleKind::LogicalDevice, HandleKind::DiagnosticsMessenger, HandleKind::Instance]);
    assert!(is_valid_teardown(&created, &order));
    assert!(!is_valid_teardown(&created, &created));
    assert!(!is_valid_teardown(&created, &created[..2].to_vec()));
}

#[test]
fn teardown_after_partial_start() {
    let mut b = Bootstrap::new();
    b.record(Ok(()));
    b.record(Ok(()));
    b.record(Err(BootError::NoSuitableDevice));
    assert_eq!(b.teardown_order(), vec![HandleKind::DiagnosticsMessenger, HandleKind::Instance]);
    assert_eq!(reversed(&vec![]), Vec::<HandleKind>::new());
}

#[test]
fn failure_kinds_by_step() {
    assert_eq!(failure_kind(Action::CreateInstance), BootError::Initialization);
    assert_eq!(failure_kind(Action::AttachDiagnostics), BootError::Initialization);
    assert_eq!(failure_kind(Action::SelectDevice), BootError::NoSuitableDevice);
    assert_eq!(failure_kind(Action::CreateDevice), BootError::DeviceCreation);
}

#[test]
fn device_request_uses_selected_family_queue_zero() {
    let r = device_request(QueueFamilySelection { device: 1, family: 3 }, vec![]);
    assert_eq!(r.physical_device, 1);
    assert_eq!(r.queue_family_index, 3);
    assert_eq!(r.queue_count, 1);
    assert_eq!(r.queue_index, 0);
    assert!(r.shader_clip_distance);
    assert!(r.extensions.is_empty());
    let r = device_request(QueueFamilySelection { device: 0, family: 0 }, vec!["VK_KHR_swapchain".to_string()]);
    assert_eq!(r.extensions, vec!["VK_KHR_swapchain".to_string()]);
}

#[test]
fn error_messages() {
    assert_eq!(BootError::NoSuitableDevice.message(), "no suitable device found");
    assert_eq!(BootError::LibraryLoad.message(), "driver library could not be loaded");
}
