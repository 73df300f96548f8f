use doable::scan::{Action, Event, Log, ScanConfig, Service, Session, Step};

const TARGET: u128 = 0x12345678_1234_5678_1234_56789abcdef0;

fn named(name: &str, connected: bool) -> Event {
    Event::PeripheralRead { name: Some(name.to_string()), connected }
}

fn service(uuid: u128, primary: bool, characteristics: Vec<u128>) -> Service {
    Service { uuid, primary, characteristics }
}

/// Drives a fresh pass with one adapter and `count` peripherals up to the
/// reading of the first peripheral.
fn up_to_first_peripheral(count: usize) -> Session {
    let (mut s, a) = Session::start(ScanConfig::standard());
    assert_eq!(a, Action::ListAdapters);
    assert_eq!(s.step(Event::Adapters { count: 1 }).action, Action::StartScan { adapter: 0 });
    assert_eq!(s.step(Event::Done).action, Action::Sleep { ms: 10000 });
    assert_eq!(s.step(Event::Slept { elapsed_ms: 10000 }).action, Action::ListPeripherals { adapter: 0 });
    let st = s.step(Event::Peripherals { count });
    assert_eq!(st.action, Action::ReadPeripheral { peripheral: 0 });
    s
}

fn found_lines(st: &Step) -> usize {
    st.logs.iter().filter(|l| matches!(l, Log::FoundTarget { .. })).count()
}

#[test]
fn standard_config_values() {
    let c = ScanConfig::standard();
    assert_eq!(c.dwell_ms, 10000);
    assert_eq!(c.found_repeats, 10);
    assert_eq!(c.target_service, TARGET);
}

#[test]
fn no_adapters_logs_error_and_finishes() {
    let (mut s, _) = Session::start(ScanConfig::standard());
    let st = s.step(Event::Adapters { count: 0 });
    assert_eq!(st.logs, vec![Log::NoAdapters]);
    assert_eq!(st.action, Action::Finish);
    let again = s.step(Event::Done);
    assert!(again.logs.is_empty());
    assert_eq!(again.action, Action::Finish);
}

#[test]
fn no_peripherals_moves_to_next_adapter() {
    let (mut s, _) = Session::start(ScanConfig::standard());
    s.step(Event::Adapters { count: 2 });
    s.step(Event::Done);
    s.step(Event::Slept { elapsed_ms: 10000 });
    let st = s.step(Event::Peripherals { count: 0 });
    assert_eq!(st.logs, vec![Log::NoPeripherals]);
    assert_eq!(st.action, Action::StartScan { adapter: 1 });
    s.step(Event::Done);
    s.step(Event::Slept { elapsed_ms: 10000 });
    let last = s.step(Event::Peripherals { count: 0 });
    assert_eq!(last.logs, vec![Log::NoPeripherals]);
    assert_eq!(last.action, Action::Finish);
}

#[test]
fn failed_connect_skips_peripheral() {
    let mut s = up_to_first_peripheral(2);
    let st = s.step(named("First", false));
    assert_eq!(st.action, Action::Connect { peripheral: 0 });
    let st = s.step(Event::Failed { reason: "timed out".to_string() });
    assert_eq!(st.logs, vec![Log::ConnectFailed { reason: "timed out".to_string() }]);
    assert_eq!(st.action, Action::ReadPeripheral { peripheral: 1 });
    s.step(named("Second", false));
    let st = s.step(Event::Failed { reason: "refused".to_string() });
    assert_eq!(st.action, Action::Finish);
}

#[test]
fn target_service_signalled_ten_times() {
    let mut s = up_to_first_peripheral(1);
    s.step(named("Widget", true));
    s.step(Event::ConnectionState { connected: true });
    let st = s.step(Event::Services { services: vec![service(TARGET, true, vec![])] });
    assert_eq!(found_lines(&st), 10);
    assert!(st.logs.iter().all(|l| !matches!(l, Log::FoundTarget { uuid } if *uuid != TARGET)));
}

#[test]
fn other_services_not_signalled() {
    let mut s = up_to_first_peripheral(1);
    s.step(named("Widget", true));
    s.step(Event::ConnectionState { connected: true });
    let st = s.step(Event::Services {
        services: vec![service(TARGET + 1, true, vec![1]), service(0x180f, false, vec![])],
    });
    assert_eq!(found_lines(&st), 0);
    assert_eq!(st.logs.len(), 1 + 2 + 1 + 1);
}

#[test]
fn two_target_services_signalled_twenty_times() {
    let mut s = up_to_first_peripheral(1);
    s.step(named("Widget", true));
    s.step(Event::ConnectionState { connected: true });
    let st = s.step(Event::Services {
        services: vec![service(TARGET, true, vec![]), service(TARGET, false, vec![])],
    });
    assert_eq!(found_lines(&st), 20);
}

#[test]
fn unnamed_peripheral_uses_placeholder() {
    let mut s = up_to_first_peripheral(1);
    let st = s.step(Event::PeripheralRead { name: None, connected: true });
    assert_eq!(
        st.logs,
        vec![Log::PeripheralStatus { name: "(peripheral name unknown)".to_string(), connected: true }]
    );
    assert_eq!(st.action, Action::CheckConnection { peripheral: 0 });
}

#[test]
fn widget_end_to_end() {
    let mut s = up_to_first_peripheral(1);
    let widget = || "Widget".to_string();
    let st = s.step(named("Widget", false));
    assert_eq!(
        st.logs,
        vec![Log::PeripheralStatus { name: widget(), connected: false }, Log::Connecting { name: widget() }]
    );
    assert_eq!(st.action, Action::Connect { peripheral: 0 });
    let st = s.step(Event::Done);
    assert_eq!(st.action, Action::CheckConnection { peripheral: 0 });
    let st = s.step(Event::ConnectionState { connected: true });
    assert_eq!(st.logs, vec![Log::NowConnected { name: widget(), connected: true }]);
    assert_eq!(st.action, Action::DiscoverServices { peripheral: 0 });
    let st = s.step(Event::Services { services: vec![service(TARGET, true, vec![0xA, 0xB])] });
    let mut expected = vec![Log::Discovered { name: widget() }];
    for _ in 0..10 {
        expected.push(Log::FoundTarget { uuid: TARGET });
    }
    expected.push(Log::ServiceLine { uuid: TARGET, primary: true });
    expected.push(Log::CharacteristicLine { uuid: 0xA });
    expected.push(Log::CharacteristicLine { uuid: 0xB });
    expected.push(Log::Disconnecting { name: widget() });
    assert_eq!(st.logs, expected);
    assert_eq!(st.action, Action::Disconnect { peripheral: 0 });
    let st = s.step(Event::Done);
    assert!(st.logs.is_empty());
    assert_eq!(st.action, Action::Finish);
}

#[test]
fn short_sleep_waits_for_remainder() {
    let (mut s, _) = Session::start(ScanConfig::standard());
    s.step(Event::Adapters { count: 1 });
    s.step(Event::Done);
    let st = s.step(Event::Slept { elapsed_ms: 9999 });
    assert_eq!(st.action, Action::Sleep { ms: 1 });
    let st = s.step(Event::Slept { elapsed_ms: 1 });
    assert_eq!(st.action, Action::ListPeripherals { adapter: 0 });
}

#[test]
fn zero_dwell_lists_after_one_sleep() {
    let config = ScanConfig { dwell_ms: 0, ..ScanConfig::standard() };
    let (mut s, _) = Session::start(config);
    s.step(Event::Adapters { count: 1 });
    assert_eq!(s.step(Event::Done).action, Action::Sleep { ms: 0 });
    assert_eq!(s.step(Event::Slept { elapsed_ms: 0 }).action, Action::ListPeripherals { adapter: 0 });
}

#[test]
fn failure_outside_connect_aborts() {
    let mut s = up_to_first_peripheral(1);
    s.step(named("Widget", true));
    s.step(Event::ConnectionState { connected: true });
    let st = s.step(Event::Failed { reason: "discovery failed".to_string() });
    assert!(st.logs.is_empty());
    assert_eq!(st.action, Action::Abort);
    assert_eq!(s.step(Event::Done).action, Action::Abort);
}

#[test]
fn unexpected_event_aborts() {
    let (mut s, _) = Session::start(ScanConfig::standard());
    assert_eq!(s.step(Event::Done).action, Action::Abort);
}

#[test]
fn disconnected_after_discovery_skips_disconnect() {
    let mut s = up_to_first_peripheral(1);
    s.step(named("Widget", true));
    s.step(Event::ConnectionState { connected: false });
    let st = s.step(Event::Services { services: vec![] });
    assert_eq!(st.logs, vec![Log::Discovered { name: "Widget".to_string() }]);
    assert_eq!(st.action, Action::Finish);
}
