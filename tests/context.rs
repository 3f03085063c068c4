use arrow_client::{
    ApplicationConfig, ApplicationContext, ApplicationContextData, ConnectionState, Host,
    Logger, MacAddr, RuntimeError, ScanReport, Service, ServiceKind, ServiceTable, Severity,
    StateFileWrite,
};
use uuid::Uuid;

fn config() -> ApplicationConfig {
    ApplicationConfig {
        version: 7,
        uuid: Uuid::from_u128(0x0123_4567_89ab_cdef_0123_4567_89ab_cdef),
        password: Uuid::from_u128(42),
        mac: MacAddr { octets: [0x02, 0x11, 0x22, 0x33, 0x44, 0x55] },
        diagnostic_mode: true,
        connection_state_file: String::from("/var/lib/agent/connection-state"),
        root_certificates: Vec::new(),
        logger: Logger::new(),
    }
}

fn saved(_: StateFileWrite) -> bool {
    true
}

fn unwritable(_: StateFileWrite) -> bool {
    false
}

fn service(id: u64, port: u16) -> Service {
    Service {
        id,
        kind: ServiceKind::Rtsp,
        mac: MacAddr { octets: [0, 1, 2, 3, 4, 5] },
        ip: 0xc0a8_0001,
        port,
    }
}

#[test]
fn connection_state_text() {
    assert_eq!(ConnectionState::Connected.as_str(), "connected");
    assert_eq!(ConnectionState::Disconnected.as_str(), "disconnected");
    assert_eq!(ConnectionState::Unauthorized.as_str(), "unauthorized");
    assert_eq!(ConnectionState::Unauthorized.to_string(), "unauthorized");
    assert_eq!(ConnectionState::Connected.persisted_line(), "connected\n");
    assert_eq!(ConnectionState::Disconnected, ConnectionState::Disconnected);
    assert_ne!(ConnectionState::Connected, ConnectionState::Unauthorized);
}

#[test]
fn new_context_defaults() {
    let ctx = ApplicationContext::new(config());
    assert!(!ctx.is_scanning());
    assert_eq!(ctx.get_connection_state(), ConnectionState::Disconnected);
    let report = ctx.get_scan_report();
    assert!(report.hosts.is_empty());
    assert!(report.services.is_empty());
    assert_eq!(ctx.get_service_table().len(), 0);
    assert_eq!(ctx.get_logger().len(), 0);
}

#[test]
fn config_getters() {
    let ctx = ApplicationContext::new(config());
    assert_eq!(ctx.get_config_version(), 7);
    assert_eq!(ctx.get_arrow_uuid(), Uuid::from_u128(0x0123_4567_89ab_cdef_0123_4567_89ab_cdef));
    assert_eq!(ctx.get_arrow_password(), Uuid::from_u128(42));
    assert_eq!(ctx.get_arrow_mac_address().octets, [0x02, 0x11, 0x22, 0x33, 0x44, 0x55]);
    assert!(ctx.get_diagnostic_mode());
}

#[test]
fn config_version_from_every_clone() {
    let ctx = ApplicationContext::new(config());
    let clones: Vec<ApplicationContext> = (0..8).map(|_| ctx.clone()).collect();
    for c in &clones {
        assert_eq!(c.get_config_version(), 7);
    }
}

#[test]
fn scanning_read_back() {
    let mut ctx = ApplicationContext::new(config());
    ctx.set_scanning(true);
    assert!(ctx.is_scanning());
    ctx.set_scanning(false);
    assert!(!ctx.is_scanning());
}

#[test]
fn scan_report_is_a_copy() {
    let mut ctx = ApplicationContext::new(config());
    let report = ScanReport {
        hosts: vec![Host { mac: MacAddr { octets: [1, 2, 3, 4, 5, 6] }, ip: 0x0a00_0001 }],
        services: vec![service(1, 554)],
    };
    ctx.update_scan_report(report);
    let mut copy = ctx.get_scan_report();
    copy.hosts.clear();
    copy.services.push(service(2, 80));
    let again = ctx.get_scan_report();
    assert_eq!(again.hosts.len(), 1);
    assert_eq!(again.hosts[0].ip, 0x0a00_0001);
    assert_eq!(again.services, vec![service(1, 554)]);
}

#[test]
fn unauthorized_read_back() {
    let mut ctx = ApplicationContext::new(config());
    let mut written: Vec<(String, String)> = Vec::new();
    ctx.set_connection_state(ConnectionState::Unauthorized, |w: StateFileWrite| {
        written.push((w.path.clone(), w.contents.clone()));
        true
    });
    assert_eq!(ctx.get_connection_state(), ConnectionState::Unauthorized);
    assert_eq!(ctx.get_connection_state().as_str(), "unauthorized");
    assert_eq!(
        written,
        vec![(String::from("/var/lib/agent/connection-state"), String::from("unauthorized\n"))]
    );
}

#[test]
fn failed_save_keeps_state_and_warns_once() {
    let mut ctx = ApplicationContext::new(config());
    ctx.set_connection_state(ConnectionState::Unauthorized, unwritable);
    assert_eq!(ctx.get_connection_state(), ConnectionState::Unauthorized);
    let log = ctx.get_logger();
    assert_eq!(log.len(), 1);
    let (severity, message) = log.record(0);
    assert_eq!(severity, Severity::Warn);
    assert_eq!(message, "unable to save current connection state");
    ctx.set_connection_state(ConnectionState::Connected, unwritable);
    assert_eq!(ctx.get_logger().len(), 2);
}

#[test]
fn successful_save_logs_nothing() {
    let mut ctx = ApplicationContext::new(config());
    ctx.set_connection_state(ConnectionState::Connected, saved);
    assert_eq!(ctx.get_connection_state(), ConnectionState::Connected);
    assert_eq!(ctx.get_logger().len(), 0);
}

#[test]
fn last_transition_wins() {
    let mut a = ApplicationContext::new(config());
    let mut b = a.clone();
    let mut file = String::new();
    a.set_connection_state(ConnectionState::Connected, |w: StateFileWrite| {
        file = w.contents;
        true
    });
    b.set_connection_state(ConnectionState::Unauthorized, unwritable);
    a.set_connection_state(ConnectionState::Disconnected, |w: StateFileWrite| {
        file = w.contents;
        true
    });
    assert_eq!(a.get_connection_state(), ConnectionState::Disconnected);
    assert_eq!(b.get_connection_state(), ConnectionState::Disconnected);
    assert_eq!(file, "disconnected\n");
    assert_eq!(b.get_logger().len(), 1);
}

#[test]
fn logger_starts_from_configuration_and_is_shared() {
    let mut cfg = config();
    cfg.logger.log(Severity::Info, "starting");
    let ctx = ApplicationContext::new(cfg);
    let other = ctx.clone();
    other.log(Severity::Error, "lost contact");
    let log = ctx.get_logger();
    assert_eq!(log.len(), 2);
    assert_eq!(log.record(0), (Severity::Info, String::from("starting")));
    assert_eq!(log.record(1), (Severity::Error, String::from("lost contact")));
}

#[test]
fn clone_shares_state() {
    let mut original = ApplicationContext::new(config());
    let mut clone = original.clone();
    clone.set_scanning(true);
    assert!(original.is_scanning());
    original.update_services(vec![service(9, 8080)]);
    assert_eq!(clone.get_service_table().get(9), Some(service(9, 8080)));
    original.set_connection_state(ConnectionState::Connected, saved);
    assert_eq!(clone.get_connection_state(), ConnectionState::Connected);
}

#[test]
fn merge_later_descriptor_overwrites() {
    let mut ctx = ApplicationContext::new(config());
    ctx.update_services(vec![service(1, 554), service(2, 80), service(1, 8554)]);
    let table = ctx.get_service_table();
    assert_eq!(table.len(), 2);
    assert_eq!(table.get(1), Some(service(1, 8554)));
    assert_eq!(table.get(2), Some(service(2, 80)));
    assert_eq!(table.get(3), None);
    assert_eq!(table.services(), vec![service(1, 8554), service(2, 80)]);
    ctx.update_services(vec![service(2, 81), service(3, 22)]);
    let table = ctx.get_service_table();
    assert_eq!(table.services(), vec![service(1, 8554), service(2, 81), service(3, 22)]);
}

#[test]
fn reset_empties_registry() {
    let mut ctx = ApplicationContext::new(config());
    ctx.update_services(vec![service(1, 554), service(2, 80)]);
    ctx.reset_service_table();
    assert_eq!(ctx.get_service_table().len(), 0);
    assert!(ctx.get_service_table().services().is_empty());
}

#[test]
fn table_snapshot_is_independent() {
    let mut ctx = ApplicationContext::new(config());
    ctx.update_services(vec![service(1, 554)]);
    let mut snapshot = ctx.get_service_table();
    snapshot.merge(service(5, 22));
    snapshot.clear();
    assert_eq!(ctx.get_service_table().len(), 1);
}

#[test]
fn service_table_direct() {
    let mut t = ServiceTable::new();
    t.merge(service(4, 1));
    t.merge(service(4, 2));
    t.merge_services(vec![service(5, 3), service(4, 9)]);
    assert_eq!(t.services(), vec![service(4, 9), service(5, 3)]);
}

#[test]
fn bundle_operations() {
    let mut d = ApplicationContextData::new(config());
    assert_eq!(d.get_config_version(), 7);
    d.set_scanning(true);
    assert!(d.is_scanning());
    let mut contents = String::new();
    d.set_connection_state(ConnectionState::Connected, |w: StateFileWrite| {
        contents = w.contents;
        false
    });
    assert_eq!(contents, "connected\n");
    assert_eq!(d.get_connection_state(), ConnectionState::Connected);
    assert_eq!(d.get_logger().len(), 1);
}

#[test]
fn invalid_certificate_is_reported() {
    let mut cfg = config();
    cfg.root_certificates = vec![b"not a certificate".to_vec()];
    let ctx = ApplicationContext::new(cfg);
    match ctx.get_tls_connector() {
        Err(RuntimeError::InvalidCertificate(i, _)) => assert_eq!(i, 0),
        Err(RuntimeError::Tls(m)) => panic!("unexpected backend error: {}", m),
        Ok(_) => panic!("a malformed certificate was accepted"),
    }
}

#[test]
fn connector_without_extra_roots() {
    let ctx = ApplicationContext::new(config());
    match ctx.get_tls_connector() {
        Err(RuntimeError::InvalidCertificate(_, _)) => panic!("no certificate to reject"),
        _ => {}
    }
}
