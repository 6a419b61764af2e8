use deadend::motd::WriteError;
use deadend::service::{
    base_dir, bus_kind, classify_message, exit_is_clean, interface_name, method_name, next_state,
    object_path, service_name, str_eq, BusKind, FcosDeadEnd, ServiceEvent, ServiceState,
};

#[test]
fn startup_transitions() {
    assert_eq!(
        next_state(ServiceState::Connecting, ServiceEvent::Connected),
        ServiceState::Registering
    );
    assert_eq!(
        next_state(ServiceState::Connecting, ServiceEvent::ConnectFailed),
        ServiceState::Failed
    );
    assert_eq!(
        next_state(ServiceState::Registering, ServiceEvent::Registered),
        ServiceState::Serving
    );
    assert_eq!(
        next_state(ServiceState::Registering, ServiceEvent::RegisterFailed),
        ServiceState::Failed
    );
}

#[test]
fn serving_stays_alive_across_messages() {
    assert_eq!(
        next_state(ServiceState::Serving, ServiceEvent::MethodCall),
        ServiceState::Serving
    );
    assert_eq!(
        next_state(ServiceState::Serving, ServiceEvent::OtherMessage),
        ServiceState::Serving
    );
}

#[test]
fn serving_ends_only_on_stream_end_or_bus_error() {
    assert_eq!(
        next_state(ServiceState::Serving, ServiceEvent::StreamEnd),
        ServiceState::Terminated
    );
    assert_eq!(
        next_state(ServiceState::Serving, ServiceEvent::BusError),
        ServiceState::Failed
    );
}

#[test]
fn terminal_states_absorb_events() {
    let events = [
        ServiceEvent::Connected,
        ServiceEvent::ConnectFailed,
        ServiceEvent::Registered,
        ServiceEvent::RegisterFailed,
        ServiceEvent::MethodCall,
        ServiceEvent::OtherMessage,
        ServiceEvent::StreamEnd,
        ServiceEvent::BusError,
    ];
    for e in events {
        assert_eq!(next_state(ServiceState::Terminated, e), ServiceState::Terminated);
        assert_eq!(next_state(ServiceState::Failed, e), ServiceState::Failed);
    }
}

#[test]
fn only_the_clean_shutdown_exits_zero() {
    assert!(exit_is_clean(&ServiceState::Terminated));
    assert!(!exit_is_clean(&ServiceState::Failed));
}

#[test]
fn mode_selects_bus_and_directory() {
    assert_eq!(bus_kind(true), BusKind::Session);
    assert_eq!(bus_kind(false), BusKind::System);
    assert_eq!(base_dir(true), "/tmp");
    assert_eq!(base_dir(false), "/run/motd.d");
}

#[test]
fn object_targets_follow_the_mode() {
    let testing = FcosDeadEnd::new(true);
    assert_eq!(testing.motd_path, "/tmp");
    assert_eq!(testing.motd_target(), "/tmp/deadend.motd");
    let system = FcosDeadEnd::new(false);
    assert_eq!(system.motd_path, "/run/motd.d");
    assert_eq!(system.motd_target(), "/run/motd.d/deadend.motd");
}

#[test]
fn reply_is_true_exactly_on_success() {
    let svc = FcosDeadEnd::new(true);
    assert!(svc.write_deadend_reason(&Ok(())));
    assert!(!svc.write_deadend_reason(&Err(WriteError::TempCreate)));
    assert!(!svc.write_deadend_reason(&Err(WriteError::SetPermissions)));
    assert!(!svc.write_deadend_reason(&Err(WriteError::WriteContent)));
    assert!(!svc.write_deadend_reason(&Err(WriteError::Persist)));
}

#[test]
fn bus_identity_constants() {
    assert_eq!(service_name(), "org.coreos.FcosDeadEnd");
    assert_eq!(object_path(), "/org/coreos/FcosDeadEnd");
    assert_eq!(interface_name(), "org.coreos.FcosDeadEnd1");
    assert_eq!(method_name(), "WriteDeadendReason");
}

#[test]
fn string_equality_is_exact() {
    assert!(str_eq("", ""));
    assert!(str_eq("WriteDeadendReason", "WriteDeadendReason"));
    assert!(!str_eq("WriteDeadendReason", "WriteDeadendReasons"));
    assert!(!str_eq("abc", "abd"));
    assert!(str_eq("héllo", "héllo"));
    assert!(!str_eq("héllo", "hello"));
    assert!(!str_eq("é", "è"));
}

#[test]
fn only_the_exposed_method_is_served() {
    let path = Some("/org/coreos/FcosDeadEnd");
    let iface = Some("org.coreos.FcosDeadEnd1");
    let member = Some("WriteDeadendReason");
    assert_eq!(classify_message(path, iface, member), ServiceEvent::MethodCall);
    assert_eq!(
        classify_message(path, iface, Some("SomethingElse")),
        ServiceEvent::OtherMessage
    );
    assert_eq!(
        classify_message(path, Some("org.freedesktop.DBus"), member),
        ServiceEvent::OtherMessage
    );
    assert_eq!(
        classify_message(Some("/org/elsewhere"), iface, member),
        ServiceEvent::OtherMessage
    );
    assert_eq!(classify_message(None, iface, member), ServiceEvent::OtherMessage);
    assert_eq!(classify_message(path, None, member), ServiceEvent::OtherMessage);
    assert_eq!(classify_message(path, iface, None), ServiceEvent::OtherMessage);
    assert_eq!(classify_message(None, None, None), ServiceEvent::OtherMessage);
}
