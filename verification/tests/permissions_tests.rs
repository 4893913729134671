use bitcraps::mobile::permissions::{Permission, PermissionCallbacks, PermissionCategory, PermissionManager, PermissionState};

#[test]
fn test_permission_manager_creation() {
    let required = PermissionManager::get_bitcraps_required_permissions();
    let optional = PermissionManager::get_bitcraps_optional_permissions();

    let manager = PermissionManager::new(required, optional);
    assert!(!manager.required_permissions.is_empty());
    assert!(!manager.optional_permissions.is_empty());
}

#[test]
fn test_permission_summary() {
    let required = vec![Permission::Bluetooth, Permission::BluetoothAdmin];
    let optional = vec![Permission::Camera, Permission::Vibrate];

    let mut manager = PermissionManager::new(required, optional);
    let summary = manager.check_all_permissions().unwrap();

    // In simulation mode, all permissions should be granted
    assert!(summary.all_required_granted);
    assert!(summary.can_continue);
}

#[test]
fn test_single_permission_request() {
    let mut manager = PermissionManager::new(vec![], vec![]);

    let result = manager.request_permission(Permission::Camera, "Camera needed for QR code scanning");

    assert!(result.is_ok());
    assert_eq!(result.unwrap(), PermissionState::Granted);
}

#[test]
fn test_batch_permission_request() {
    let mut manager = PermissionManager::new(vec![], vec![]);

    let permissions = vec![Permission::Bluetooth, Permission::BluetoothAdmin, Permission::AccessCoarseLocation];

    let results = manager.request_permissions(permissions.clone(), "These permissions are needed for Bluetooth gaming");

    assert!(results.is_ok());

    let permission_states = results.unwrap();
    assert_eq!(permission_states.len(), permissions.len());

    for permission in permissions {
        let state = permission_states.iter().find(|(p, _)| *p == permission).map(|(_, s)| *s);
        assert_eq!(state, Some(PermissionState::Granted));
    }
}

#[test]
fn test_permission_explanations() {
    let manager = PermissionManager::new(vec![], vec![]);

    let explanation = manager.get_permission_explanation(Permission::Bluetooth);
    assert!(explanation.contains("peer-to-peer gaming"));

    let location_explanation = manager.get_permission_explanation(Permission::AccessCoarseLocation);
    assert!(location_explanation.contains("Bluetooth Low Energy"));
}

#[test]
fn test_onboarding_flow() {
    let manager = PermissionManager::new(vec![], vec![]);
    let mut flow = manager.create_onboarding_flow();

    assert!(!flow.is_complete());
    assert!(flow.steps.len() >= 3);

    // Check first step is Bluetooth
    let first_step = flow.current().unwrap();
    assert!(first_step.permissions.contains(&Permission::Bluetooth));
    assert!(first_step.required);

    // Move through flow
    while !flow.is_complete() {
        flow.next_step();
    }

    assert!(flow.is_complete());
}

#[test]
fn test_permission_categories() {
    assert_eq!(Permission::Bluetooth.category(), PermissionCategory::Bluetooth);
    assert_eq!(Permission::AccessCoarseLocation.category(), PermissionCategory::Location);
    assert_eq!(Permission::Camera.category(), PermissionCategory::Media);
    assert_eq!(Permission::ForegroundService.category(), PermissionCategory::System);
}

#[test]
fn test_permission_strings() {
    assert_eq!(Permission::Bluetooth.to_android_string(), "android.permission.BLUETOOTH");

    assert_eq!(Permission::Camera.to_ios_string(), "NSCameraUsageDescription");
}

#[test]
fn test_can_function_without() {
    let required = vec![Permission::Bluetooth];
    let optional = vec![Permission::Camera];

    let manager = PermissionManager::new(required, optional);

    assert!(!manager.can_function_without(Permission::Bluetooth));
    assert!(manager.can_function_without(Permission::Camera));
}

#[test]
fn permission_manager_removes_duplicates() {
    let manager = PermissionManager::new(
        vec![Permission::Bluetooth, Permission::Bluetooth, Permission::Camera],
        vec![],
    );
    assert_eq!(manager.required_permissions, vec![Permission::Bluetooth, Permission::Camera]);
}

#[test]
fn batch_request_reports_each_permission_once() {
    let mut manager = PermissionManager::new(vec![], vec![]);
    let results = manager
        .request_permissions(vec![Permission::Camera, Permission::Camera, Permission::Vibrate], "why")
        .unwrap();
    assert_eq!(results.len(), 2);
    assert_eq!(results[0], (Permission::Camera, PermissionState::Granted));
    assert_eq!(results[1], (Permission::Vibrate, PermissionState::Granted));
}

#[test]
fn onboarding_flow_completes_after_all_steps() {
    let manager = PermissionManager::new(vec![], vec![]);
    let mut flow = manager.create_onboarding_flow();
    let steps = flow.steps.len();
    let mut moves = 0;
    while !flow.is_complete() {
        flow.next_step();
        moves += 1;
    }
    assert_eq!(moves, steps);
    // The flow stays on its last step once it is complete.
    let last = flow.steps.last().unwrap();
    assert_eq!(flow.current().unwrap().title, last.title);
}

#[test]
fn next_step_advances_then_completes() {
    let manager = PermissionManager::new(
        PermissionManager::get_bitcraps_required_permissions(),
        PermissionManager::get_bitcraps_optional_permissions(),
    );
    let mut flow = manager.create_onboarding_flow();
    let n = flow.steps.len();
    assert!(n >= 2);
    let titles: Vec<String> = flow.steps.iter().map(|s| s.title.clone()).collect();
    for i in 1..n {
        let step = flow.next_step().expect("a further step");
        assert_eq!(step.title, titles[i]);
        assert_eq!(flow.current_step, i);
        assert!(!flow.completed);
    }
    assert!(flow.next_step().is_none());
    assert_eq!(flow.current_step, n - 1);
    assert!(flow.completed);
    assert!(flow.next_step().is_none());
    assert_eq!(flow.steps.len(), n);
}

#[test]
fn permission_lists_are_taken_as_sets() {
    let mut manager = PermissionManager::new(
        vec![Permission::Bluetooth, Permission::Bluetooth, Permission::BluetoothAdmin],
        vec![Permission::Camera, Permission::Vibrate, Permission::Camera],
    );
    assert_eq!(manager.required_permissions, vec![Permission::Bluetooth, Permission::BluetoothAdmin]);
    assert_eq!(manager.optional_permissions, vec![Permission::Camera, Permission::Vibrate]);
    let s = manager.check_all_permissions().unwrap();
    assert!(s.all_required_granted && s.can_continue);
    assert_eq!(s.granted_required, vec![Permission::Bluetooth, Permission::BluetoothAdmin]);
    assert!(s.denied_required.is_empty());
}

#[test]
fn permission_callbacks_are_called_in_registration_order() {
    let seen = std::sync::Arc::new(std::sync::Mutex::new(Vec::new()));
    let mut callbacks: PermissionCallbacks<Box<dyn Fn(Permission, PermissionState) + Send + Sync>> =
        PermissionCallbacks::new();
    let first = seen.clone();
    callbacks
        .add_permission_callback(Box::new(move |p, s| first.lock().unwrap().push((1, p, s))))
        .unwrap();
    let second = seen.clone();
    callbacks
        .add_permission_callback(Box::new(move |p, s| second.lock().unwrap().push((2, p, s))))
        .unwrap();
    assert_eq!(callbacks.len(), 2);
    callbacks.notify(Permission::Camera, PermissionState::Denied);
    assert_eq!(
        *seen.lock().unwrap(),
        vec![(1, Permission::Camera, PermissionState::Denied), (2, Permission::Camera, PermissionState::Denied)]
    );

    let mut manager = PermissionManager::new(vec![Permission::Bluetooth], vec![]);
    manager.request_permission(Permission::Bluetooth, "play").unwrap();
    assert_eq!(callbacks.notify_state_changes(&mut manager), 0);
    assert_eq!(seen.lock().unwrap().len(), 2);
}
