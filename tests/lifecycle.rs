use ec_su_axb35::lifecycle::{driver_file_name, Lifecycle, LifecycleAction, LifecycleError, LifecycleEvent};
use ec_su_axb35::lifecycle::LifecycleEvent::{AlreadyExists, AlreadyRunning, Failed, Succeeded};

fn run(events: &[LifecycleEvent]) -> Vec<LifecycleAction> {
    let mut l = Lifecycle::new();
    let mut actions = vec![l.action()];
    for e in events {
        l.advance(*e);
        actions.push(l.action());
    }
    actions
}

#[test]
fn transport_already_there() {
    assert_eq!(
        run(&[LifecycleEvent::Succeeded]),
        vec![LifecycleAction::ProbeTransport, LifecycleAction::Ready]
    );
}

#[test]
fn fresh_install() {
    assert_eq!(
        run(&[Failed, Succeeded, Succeeded, Succeeded, Succeeded]),
        vec![
            LifecycleAction::ProbeTransport,
            LifecycleAction::LocateDriver,
            LifecycleAction::CreateService,
            LifecycleAction::StartService,
            LifecycleAction::Wait(500),
            LifecycleAction::Ready,
        ]
    );
}

#[test]
fn existing_service_is_started() {
    assert_eq!(
        run(&[Failed, Succeeded, AlreadyExists, Succeeded, AlreadyRunning, Succeeded]),
        vec![
            LifecycleAction::ProbeTransport,
            LifecycleAction::LocateDriver,
            LifecycleAction::CreateService,
            LifecycleAction::OpenExistingService,
            LifecycleAction::StartService,
            LifecycleAction::Wait(500),
            LifecycleAction::Ready,
        ]
    );
}

#[test]
fn failed_install_is_cleaned_up_and_retried_once() {
    assert_eq!(
        run(&[Failed, Succeeded, Failed, Succeeded, Succeeded, Succeeded, Failed]),
        vec![
            LifecycleAction::ProbeTransport,
            LifecycleAction::LocateDriver,
            LifecycleAction::CreateService,
            LifecycleAction::DeleteService,
            LifecycleAction::Wait(2000),
            LifecycleAction::CreateService,
            LifecycleAction::StartService,
            LifecycleAction::Fatal(LifecycleError::InstallFailed),
        ]
    );
}

#[test]
fn missing_driver_is_fatal() {
    assert_eq!(
        run(&[Failed, Failed]),
        vec![
            LifecycleAction::ProbeTransport,
            LifecycleAction::LocateDriver,
            LifecycleAction::Fatal(LifecycleError::DriverNotFound),
        ]
    );
}

#[test]
fn driver_file_per_architecture() {
    assert_eq!(driver_file_name(true), "WinRing0x64.sys");
    assert_eq!(driver_file_name(false), "WinRing0.sys");
}
