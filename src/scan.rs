//! The scan / connect / enumerate / disconnect sequence as a state machine.
//!
//! The machine never touches the radio. Each call of [`Session::step`] takes
//! the outcome of the previous action, decides what happens next, and hands
//! back the log lines to emit and the next action for the driver to perform.

use vstd::prelude::*;
use vstd::string::*;
use crate::uuid_text::{hex_value, uuid_digits, hyphenated_value, is_hyphenated_uuid, parse_uuid};

verus! {

/// Tunable constants of a scan pass.
#[derive(Clone, Copy, Debug, PartialEq, Eq, Structural)]
pub struct ScanConfig {
    /// How long advertisements are collected before peripherals are listed.
    pub dwell_ms: u64,
    /// The service whose discovery is signalled.
    pub target_service: u128,
    /// How many times the discovery of the target service is logged.
    pub found_repeats: u64,
}

pub open spec fn default_target_text() -> Seq<char> {
    "12345678-1234-5678-1234-56789abcdef0"@
}

impl ScanConfig {
    /// Ten seconds of dwell, the service `12345678-1234-5678-1234-56789abcdef0`,
    /// signalled ten times.
    pub fn standard() -> (r: ScanConfig)
        ensures
            r.dwell_ms == 10000,
            r.found_repeats == 10,
            r.target_service == 0x12345678_1234_5678_1234_56789abcdef0u128,
            r.target_service == hyphenated_value(default_target_text()),
    {
        let text = "12345678-1234-5678-1234-56789abcdef0";
        proof {
            reveal_strlit("12345678-1234-5678-1234-56789abcdef0");
            assert(is_hyphenated_uuid(text@));
            let d = uuid_digits(text@);
            let e: Seq<char> = seq![
                '1', '2', '3', '4', '5', '6', '7', '8', '1', '2', '3', '4', '5', '6', '7', '8',
                '1', '2', '3', '4', '5', '6', '7', '8', '9', 'a', 'b', 'c', 'd', 'e', 'f', '0',
            ];
            assert(d =~= e);
            reveal_with_fuel(hex_value, 33);
            assert(hex_value(d) == 0x12345678_1234_5678_1234_56789abcdef0int);
        }
        let target = match parse_uuid(text) {
            Some(u) => u,
            // never taken: the text is a well-formed UUID, as proved above
            None => 0,
        };
        ScanConfig { dwell_ms: 10000, target_service: target, found_repeats: 10 }
    }
}

/// A service of a peripheral, as discovery reported it.
#[derive(Clone, Debug, PartialEq, Eq)]
pub struct Service {
    pub uuid: u128,
    pub primary: bool,
    pub characteristics: Vec<u128>,
}

pub struct ServiceModel {
    pub uuid: u128,
    pub primary: bool,
    pub characteristics: Seq<u128>,
}

impl View for Service {
    type V = ServiceModel;

    open spec fn view(&self) -> ServiceModel {
        ServiceModel { uuid: self.uuid, primary: self.primary, characteristics: self.characteristics@ }
    }
}

/// What the driver is asked to do next.
#[derive(Clone, Copy, Debug, PartialEq, Eq, Structural)]
pub enum Action {
    /// List the local adapters; answer with `Adapters`.
    ListAdapters,
    /// Start an unfiltered scan on an adapter; answer with `Done`.
    StartScan { adapter: usize },
    /// Wait; answer with `Slept` and the time that really passed.
    Sleep { ms: u64 },
    /// List what the adapter has seen; answer with `Peripherals`.
    ListPeripherals { adapter: usize },
    /// Read a peripheral's properties and connection state; answer with `PeripheralRead`.
    ReadPeripheral { peripheral: usize },
    /// Connect to a peripheral; answer with `Done`, or `Failed` with the reason.
    Connect { peripheral: usize },
    /// Read the connection state again; answer with `ConnectionState`.
    CheckConnection { peripheral: usize },
    /// Discover services; answer with `Services`.
    DiscoverServices { peripheral: usize },
    /// Disconnect from a peripheral; answer with `Done`.
    Disconnect { peripheral: usize },
    /// The pass is over; the program ends normally.
    Finish,
    /// The last operation failed in a way that ends the program with an error.
    Abort,
}

/// The outcome of the last action.
#[derive(Clone, Debug, PartialEq, Eq)]
pub enum Event {
    Adapters { count: usize },
    Done,
    Slept { elapsed_ms: u64 },
    Peripherals { count: usize },
    PeripheralRead { name: Option<String>, connected: bool },
    ConnectionState { connected: bool },
    Services { services: Vec<Service> },
    Failed { reason: String },
}

pub enum EventModel {
    Adapters { count: nat },
    Done,
    Slept { elapsed_ms: nat },
    Peripherals { count: nat },
    PeripheralRead { name: Option<Seq<char>>, connected: bool },
    ConnectionState { connected: bool },
    Services { services: Seq<ServiceModel> },
    Failed { reason: Seq<char> },
}

pub open spec fn services_view(v: Seq<Service>) -> Seq<ServiceModel> {
    v.map_values(|s: Service| s@)
}

impl View for Event {
    type V = EventModel;

    open spec fn view(&self) -> EventModel {
        match self {
            Event::Adapters { count } => EventModel::Adapters { count: *count as nat },
            Event::Done => EventModel::Done,
            Event::Slept { elapsed_ms } => EventModel::Slept { elapsed_ms: *elapsed_ms as nat },
            Event::Peripherals { count } => EventModel::Peripherals { count: *count as nat },
            Event::PeripheralRead { name, connected } => EventModel::PeripheralRead {
                name: match name {
                    Some(n) => Some(n@),
                    None => None,
                },
                connected: *connected,
            },
            Event::ConnectionState { connected } => EventModel::ConnectionState {
                connected: *connected,
            },
            Event::Services { services } => EventModel::Services {
                services: services_view(services@),
            },
            Event::Failed { reason } => EventModel::Failed { reason: reason@ },
        }
    }
}

/// A line to log, with its level in the comment.
#[derive(Clone, Debug, PartialEq, Eq)]
pub enum Log {
    /// error: there is no adapter at all
    NoAdapters,
    /// error: the scan of an adapter saw no peripheral
    NoPeripherals,
    /// info: a peripheral's name and whether it is connected
    PeripheralStatus { name: String, connected: bool },
    /// debug: a connection is being made
    Connecting { name: String },
    /// error: the connection failed and the peripheral is skipped
    ConnectFailed { reason: String },
    /// info: the connection state after connecting
    NowConnected { name: String, connected: bool },
    /// info: the services of a peripheral were discovered
    Discovered { name: String },
    /// warn: the target service was found
    FoundTarget { uuid: u128 },
    /// info: a service
    ServiceLine { uuid: u128, primary: bool },
    /// info: a characteristic of the service logged last
    CharacteristicLine { uuid: u128 },
    /// debug: a disconnection is being made
    Disconnecting { name: String },
}

pub enum LogModel {
    NoAdapters,
    NoPeripherals,
    PeripheralStatus { name: Seq<char>, connected: bool },
    Connecting { name: Seq<char> },
    ConnectFailed { reason: Seq<char> },
    NowConnected { name: Seq<char>, connected: bool },
    Discovered { name: Seq<char> },
    FoundTarget { uuid: u128 },
    ServiceLine { uuid: u128, primary: bool },
    CharacteristicLine { uuid: u128 },
    Disconnecting { name: Seq<char> },
}

impl View for Log {
    type V = LogModel;

    open spec fn view(&self) -> LogModel {
        match self {
            Log::NoAdapters => LogModel::NoAdapters,
            Log::NoPeripherals => LogModel::NoPeripherals,
            Log::PeripheralStatus { name, connected } => LogModel::PeripheralStatus {
                name: name@,
                connected: *connected,
            },
            Log::Connecting { name } => LogModel::Connecting { name: name@ },
            Log::ConnectFailed { reason } => LogModel::ConnectFailed { reason: reason@ },
            Log::NowConnected { name, connected } => LogModel::NowConnected {
                name: name@,
                connected: *connected,
            },
            Log::Discovered { name } => LogModel::Discovered { name: name@ },
            Log::FoundTarget { uuid } => LogModel::FoundTarget { uuid: *uuid },
            Log::ServiceLine { uuid, primary } => LogModel::ServiceLine {
                uuid: *uuid,
                primary: *primary,
            },
            Log::CharacteristicLine { uuid } => LogModel::CharacteristicLine { uuid: *uuid },
            Log::Disconnecting { name } => LogModel::Disconnecting { name: name@ },
        }
    }
}

pub open spec fn logs_view(v: Seq<Log>) -> Seq<LogModel> {
    v.map_values(|l: Log| l@)
}

/// Where the pass stands: which answer the machine waits for.
#[derive(Clone, Copy, Debug, PartialEq, Eq, Structural)]
pub enum Phase {
    ListingAdapters,
    StartingScan,
    /// Collecting advertisements; `waited_ms` have passed so far.
    Dwelling { waited_ms: u64 },
    ListingPeripherals,
    ReadingPeripheral,
    Connecting,
    CheckingConnection,
    Discovering,
    Disconnecting,
    Finished,
    Aborted,
}

/// The name logged for a peripheral that advertises none.
pub open spec fn placeholder_name() -> Seq<char> {
    "(peripheral name unknown)"@
}

/// A scan pass in progress.
pub struct Session {
    pub config: ScanConfig,
    pub phase: Phase,
    /// How many adapters there are, once listed.
    pub adapters: usize,
    /// The adapter being scanned.
    pub adapter: usize,
    /// How many peripherals the current adapter has seen, once listed.
    pub peripherals: usize,
    /// The peripheral being processed.
    pub peripheral: usize,
    /// The display name of the current peripheral.
    pub name: String,
    /// Whether the current peripheral was last seen connected.
    pub connected: bool,
}

pub struct SessionModel {
    pub config: ScanConfig,
    pub phase: Phase,
    pub adapters: nat,
    pub adapter: nat,
    pub peripherals: nat,
    pub peripheral: nat,
    pub name: Seq<char>,
    pub connected: bool,
}

impl View for Session {
    type V = SessionModel;

    open spec fn view(&self) -> SessionModel {
        SessionModel {
            config: self.config,
            phase: self.phase,
            adapters: self.adapters as nat,
            adapter: self.adapter as nat,
            peripherals: self.peripherals as nat,
            peripheral: self.peripheral as nat,
            name: self.name@,
            connected: self.connected,
        }
    }
}

/// The phases in which one adapter is being worked on.
pub open spec fn on_adapter(p: Phase) -> bool {
    !(p is ListingAdapters || p is Finished || p is Aborted)
}

/// The phases in which one peripheral is being worked on.
pub open spec fn on_peripheral(p: Phase) -> bool {
    on_adapter(p) && !(p is StartingScan || p is Dwelling || p is ListingPeripherals)
}

impl SessionModel {
    pub open spec fn wf(self) -> bool {
        &&& self.adapters <= usize::MAX
        &&& self.peripherals <= usize::MAX
        &&& on_adapter(self.phase) ==> self.adapter < self.adapters
        &&& on_peripheral(self.phase) ==> self.peripheral < self.peripherals
        &&& self.phase matches Phase::Dwelling { waited_ms } ==> waited_ms <= self.config.dwell_ms
    }
}

/// What one step decides: the next state, the lines to log, the next action.
pub struct Transition {
    pub state: SessionModel,
    pub logs: Seq<LogModel>,
    pub action: Action,
}

/// The first state of a pass.
pub open spec fn initial(config: ScanConfig) -> SessionModel {
    SessionModel {
        config,
        phase: Phase::ListingAdapters,
        adapters: 0,
        adapter: 0,
        peripherals: 0,
        peripheral: 0,
        name: Seq::empty(),
        connected: false,
    }
}

/// Go on with the next adapter, or finish after the last one.
pub open spec fn next_adapter(s: SessionModel, logs: Seq<LogModel>) -> Transition {
    if s.adapter + 1 < s.adapters {
        Transition {
            state: SessionModel { phase: Phase::StartingScan, adapter: s.adapter + 1, ..s },
            logs,
            action: Action::StartScan { adapter: (s.adapter + 1) as usize },
        }
    } else {
        Transition { state: SessionModel { phase: Phase::Finished, ..s }, logs, action: Action::Finish }
    }
}

/// Go on with the next peripheral of the adapter, or with the next adapter.
pub open spec fn next_peripheral(s: SessionModel, logs: Seq<LogModel>) -> Transition {
    if s.peripheral + 1 < s.peripherals {
        Transition {
            state: SessionModel { phase: Phase::ReadingPeripheral, peripheral: s.peripheral + 1, ..s },
            logs,
            action: Action::ReadPeripheral { peripheral: (s.peripheral + 1) as usize },
        }
    } else {
        next_adapter(s, logs)
    }
}

/// The signal that the target service was found, as often as configured.
pub open spec fn found_logs(config: ScanConfig, uuid: u128) -> Seq<LogModel> {
    if uuid == config.target_service {
        Seq::new(config.found_repeats as nat, |i: int| LogModel::FoundTarget { uuid: config.target_service })
    } else {
        Seq::empty()
    }
}

/// The lines logged for one service: the signal if it is the target, the
/// service itself, then each of its characteristics.
pub open spec fn one_service_logs(config: ScanConfig, sv: ServiceModel) -> Seq<LogModel> {
    found_logs(config, sv.uuid) + seq![LogModel::ServiceLine { uuid: sv.uuid, primary: sv.primary }]
        + sv.characteristics.map_values(|c: u128| LogModel::CharacteristicLine { uuid: c })
}

/// The lines logged for a list of services, in order.
pub open spec fn service_logs(config: ScanConfig, svs: Seq<ServiceModel>) -> Seq<LogModel>
    decreases svs.len(),
{
    if svs.len() == 0 {
        Seq::empty()
    } else {
        service_logs(config, svs.drop_last()) + one_service_logs(config, svs.last())
    }
}

pub open spec fn abort(s: SessionModel) -> Transition {
    Transition { state: SessionModel { phase: Phase::Aborted, ..s }, logs: Seq::empty(), action: Action::Abort }
}

/// One step of the pass: the state `s` receives the outcome `e` of the last action.
/// An outcome that the phase does not wait for, and a failure anywhere but
/// while connecting, aborts the pass.
pub open spec fn next(s: SessionModel, e: EventModel) -> Transition {
    match s.phase {
        Phase::Finished => Transition { state: s, logs: Seq::empty(), action: Action::Finish },
        Phase::Aborted => Transition { state: s, logs: Seq::empty(), action: Action::Abort },
        Phase::ListingAdapters => match e {
            EventModel::Adapters { count } => if count == 0 {
                Transition {
                    state: SessionModel { phase: Phase::Finished, ..s },
                    logs: seq![LogModel::NoAdapters],
                    action: Action::Finish,
                }
            } else {
                Transition {
                    state: SessionModel { phase: Phase::StartingScan, adapters: count, adapter: 0, ..s },
                    logs: Seq::empty(),
                    action: Action::StartScan { adapter: 0 },
                }
            },
            _ => abort(s),
        },
        Phase::StartingScan => match e {
            EventModel::Done => Transition {
                state: SessionModel { phase: Phase::Dwelling { waited_ms: 0 }, ..s },
                logs: Seq::empty(),
                action: Action::Sleep { ms: s.config.dwell_ms },
            },
            _ => abort(s),
        },
        Phase::Dwelling { waited_ms } => match e {
            EventModel::Slept { elapsed_ms } => if waited_ms + elapsed_ms >= s.config.dwell_ms {
                Transition {
                    state: SessionModel { phase: Phase::ListingPeripherals, ..s },
                    logs: Seq::empty(),
                    action: Action::ListPeripherals { adapter: s.adapter as usize },
                }
            } else {
                Transition {
                    state: SessionModel {
                        phase: Phase::Dwelling { waited_ms: (waited_ms + elapsed_ms) as u64 },
                        ..s
                    },
                    logs: Seq::empty(),
                    action: Action::Sleep { ms: (s.config.dwell_ms - waited_ms - elapsed_ms) as u64 },
                }
            },
            _ => abort(s),
        },
        Phase::ListingPeripherals => match e {
            EventModel::Peripherals { count } => if count == 0 {
                next_adapter(s, seq![LogModel::NoPeripherals])
            } else {
                Transition {
                    state: SessionModel {
                        phase: Phase::ReadingPeripheral,
                        peripherals: count,
                        peripheral: 0,
                        ..s
                    },
                    logs: Seq::empty(),
                    action: Action::ReadPeripheral { peripheral: 0 },
                }
            },
            _ => abort(s),
        },
        Phase::ReadingPeripheral => match e {
            EventModel::PeripheralRead { name, connected } => {
                let nm = match name {
                    Some(n) => n,
                    None => placeholder_name(),
                };
                let status = LogModel::PeripheralStatus { name: nm, connected };
                if connected {
                    Transition {
                        state: SessionModel { phase: Phase::CheckingConnection, name: nm, connected, ..s },
                        logs: seq![status],
                        action: Action::CheckConnection { peripheral: s.peripheral as usize },
                    }
                } else {
                    Transition {
                        state: SessionModel { phase: Phase::Connecting, name: nm, connected, ..s },
                        logs: seq![status, LogModel::Connecting { name: nm }],
                        action: Action::Connect { peripheral: s.peripheral as usize },
                    }
                }
            },
            _ => abort(s),
        },
        Phase::Connecting => match e {
            EventModel::Done => Transition {
                state: SessionModel { phase: Phase::CheckingConnection, ..s },
                logs: Seq::empty(),
                action: Action::CheckConnection { peripheral: s.peripheral as usize },
            },
            EventModel::Failed { reason } => next_peripheral(s, seq![LogModel::ConnectFailed { reason }]),
            _ => abort(s),
        },
        Phase::CheckingConnection => match e {
            EventModel::ConnectionState { connected } => Transition {
                state: SessionModel { phase: Phase::Discovering, connected, ..s },
                logs: seq![LogModel::NowConnected { name: s.name, connected }],
                action: Action::DiscoverServices { peripheral: s.peripheral as usize },
            },
            _ => abort(s),
        },
        Phase::Discovering => match e {
            EventModel::Services { services } => {
                let listed = seq![LogModel::Discovered { name: s.name }] + service_logs(s.config, services);
                if s.connected {
                    Transition {
                        state: SessionModel { phase: Phase::Disconnecting, ..s },
                        logs: listed + seq![LogModel::Disconnecting { name: s.name }],
                        action: Action::Disconnect { peripheral: s.peripheral as usize },
                    }
                } else {
                    next_peripheral(s, listed)
                }
            },
            _ => abort(s),
        },
        Phase::Disconnecting => match e {
            EventModel::Done => next_peripheral(s, Seq::empty()),
            _ => abort(s),
        },
    }
}

/// What a step hands back to the driver.
pub struct Step {
    pub logs: Vec<Log>,
    pub action: Action,
}

fn emit(logs: &mut Vec<Log>, line: Log)
    ensures
        logs_view(final(logs)@) == logs_view(old(logs)@).push(line@),
{
    let ghost l = line@;
    logs.push(line);
    assert(logs_view(logs@) =~= logs_view(old(logs)@).push(l));
}

/// Appends the lines logged for one service.
fn push_service_logs(config: ScanConfig, sv: &Service, logs: &mut Vec<Log>)
    ensures
        logs_view(final(logs)@) == logs_view(old(logs)@) + one_service_logs(config, sv@),
{
    let ghost start = logs_view(logs@);
    if sv.uuid == config.target_service {
        let mut k: u64 = 0;
        while k < config.found_repeats
            invariant
                k <= config.found_repeats,
                sv.uuid == config.target_service,
                logs_view(logs@) =~= start + found_logs(config, sv.uuid).take(k as int),
            decreases config.found_repeats - k,
        {
            emit(logs, Log::FoundTarget { uuid: config.target_service });
            k = k + 1;
        }
        assert(found_logs(config, sv.uuid).take(k as int) =~= found_logs(config, sv.uuid));
    }
    let ghost with_found = logs_view(logs@);
    assert(with_found =~= start + found_logs(config, sv.uuid));
    emit(logs, Log::ServiceLine { uuid: sv.uuid, primary: sv.primary });
    let ghost chars = sv.characteristics@.map_values(|c: u128| LogModel::CharacteristicLine { uuid: c });
    let mut j: usize = 0;
    while j < sv.characteristics.len()
        invariant
            j <= sv.characteristics@.len(),
            chars == sv.characteristics@.map_values(|c: u128| LogModel::CharacteristicLine { uuid: c }),
            logs_view(logs@) =~= with_found + seq![LogModel::ServiceLine { uuid: sv.uuid, primary: sv.primary }]
                + chars.take(j as int),
        decreases sv.characteristics@.len() - j,
    {
        emit(logs, Log::CharacteristicLine { uuid: sv.characteristics[j] });
        j = j + 1;
    }
    assert(chars.take(j as int) =~= chars);
}

/// Appends the lines logged for a list of services, in order.
fn push_services_logs(config: ScanConfig, svs: &Vec<Service>, logs: &mut Vec<Log>)
    ensures
        logs_view(final(logs)@) == logs_view(old(logs)@) + service_logs(config, services_view(svs@)),
{
    let ghost start = logs_view(logs@);
    let mut i: usize = 0;
    while i < svs.len()
        invariant
            i <= svs@.len(),
            logs_view(logs@) == start + service_logs(config, services_view(svs@).take(i as int)),
        decreases svs@.len() - i,
    {
        push_service_logs(config, &svs[i], logs);
        proof {
            let pre = services_view(svs@).take(i as int);
            let post = services_view(svs@).take(i + 1);
            assert(post.drop_last() =~= pre);
            assert(post.last() == svs@[i as int]@);
            assert(logs_view(logs@) =~= start + service_logs(config, post));
        }
        i = i + 1;
    }
    assert(services_view(svs@).take(i as int) =~= services_view(svs@));
}

impl Session {
    /// A fresh pass, and its first action: listing the adapters.
    pub fn start(config: ScanConfig) -> (r: (Session, Action))
        ensures
            r.0@ == initial(config),
            r.0@.wf(),
            r.1 == Action::ListAdapters,
    {
        let s = Session {
            config,
            phase: Phase::ListingAdapters,
            adapters: 0,
            adapter: 0,
            peripherals: 0,
            peripheral: 0,
            name: String::new(),
            connected: false,
        };
        (s, Action::ListAdapters)
    }

    fn abort(&mut self) -> (a: Action)
        ensures
            final(self)@ == abort(old(self)@).state,
            a == abort(old(self)@).action,
    {
        self.phase = Phase::Aborted;
        Action::Abort
    }

    fn advance_adapter(&mut self, logs: &Vec<Log>) -> (a: Action)
        requires
            old(self)@.wf(),
            on_adapter(old(self).phase),
        ensures
            final(self)@ == next_adapter(old(self)@, logs_view(logs@)).state,
            a == next_adapter(old(self)@, logs_view(logs@)).action,
    {
        if self.adapter + 1 < self.adapters {
            self.adapter = self.adapter + 1;
            self.phase = Phase::StartingScan;
            Action::StartScan { adapter: self.adapter }
        } else {
            self.phase = Phase::Finished;
            Action::Finish
        }
    }

    fn advance_peripheral(&mut self, logs: &Vec<Log>) -> (a: Action)
        requires
            old(self)@.wf(),
            on_peripheral(old(self).phase),
        ensures
            final(self)@ == next_peripheral(old(self)@, logs_view(logs@)).state,
            a == next_peripheral(old(self)@, logs_view(logs@)).action,
    {
        if self.peripheral + 1 < self.peripherals {
            self.peripheral = self.peripheral + 1;
            self.phase = Phase::ReadingPeripheral;
            Action::ReadPeripheral { peripheral: self.peripheral }
        } else {
            self.advance_adapter(logs)
        }
    }

    /// Takes the outcome of the last action; returns the lines to log and
    /// the next action, as [`next`] decides.
    pub fn step(&mut self, e: Event) -> (r: Step)
        requires
            old(self)@.wf(),
        ensures
            final(self)@.wf(),
            final(self)@ == next(old(self)@, e@).state,
            logs_view(r.logs@) == next(old(self)@, e@).logs,
            r.action == next(old(self)@, e@).action,
    {
        let ghost pre = self@;
        let ghost ev = e@;
        let mut logs: Vec<Log> = Vec::new();
        let action = match self.phase {
            Phase::Finished => Action::Finish,
            Phase::Aborted => Action::Abort,
            Phase::ListingAdapters => match e {
                Event::Adapters { count } => if count == 0 {
                    emit(&mut logs, Log::NoAdapters);
                    self.phase = Phase::Finished;
                    Action::Finish
                } else {
                    self.adapters = count;
                    self.adapter = 0;
                    self.phase = Phase::StartingScan;
                    Action::StartScan { adapter: 0 }
                },
                _ => self.abort(),
            },
            Phase::StartingScan => match e {
                Event::Done => {
                    self.phase = Phase::Dwelling { waited_ms: 0 };
                    Action::Sleep { ms: self.config.dwell_ms }
                },
                _ => self.abort(),
            },
            Phase::Dwelling { waited_ms } => match e {
                Event::Slept { elapsed_ms } => if elapsed_ms >= self.config.dwell_ms - waited_ms {
                    self.phase = Phase::ListingPeripherals;
                    Action::ListPeripherals { adapter: self.adapter }
                } else {
                    let waited = waited_ms + elapsed_ms;
                    self.phase = Phase::Dwelling { waited_ms: waited };
                    Action::Sleep { ms: self.config.dwell_ms - waited }
                },
                _ => self.abort(),
            },
            Phase::ListingPeripherals => match e {
                Event::Peripherals { count } => if count == 0 {
                    emit(&mut logs, Log::NoPeripherals);
                    self.advance_adapter(&logs)
                } else {
                    self.peripherals = count;
                    self.peripheral = 0;
                    self.phase = Phase::ReadingPeripheral;
                    Action::ReadPeripheral { peripheral: 0 }
                },
                _ => self.abort(),
            },
            Phase::ReadingPeripheral => match e {
                Event::PeripheralRead { name, connected } => {
                    let nm = match name {
                        Some(n) => n,
                        None => String::from_str("(peripheral name unknown)"),
                    };
                    emit(&mut logs, Log::PeripheralStatus { name: nm.clone(), connected });
                    self.connected = connected;
                    if connected {
                        self.name = nm;
                        self.phase = Phase::CheckingConnection;
                        Action::CheckConnection { peripheral: self.peripheral }
                    } else {
                        emit(&mut logs, Log::Connecting { name: nm.clone() });
                        self.name = nm;
                        self.phase = Phase::Connecting;
                        Action::Connect { peripheral: self.peripheral }
                    }
                },
                _ => self.abort(),
            },
            Phase::Connecting => match e {
                Event::Done => {
                    self.phase = Phase::CheckingConnection;
                    Action::CheckConnection { peripheral: self.peripheral }
                },
                Event::Failed { reason } => {
                    emit(&mut logs, Log::ConnectFailed { reason });
                    self.advance_peripheral(&logs)
                },
                _ => self.abort(),
            },
            Phase::CheckingConnection => match e {
                Event::ConnectionState { connected } => {
                    self.connected = connected;
                    emit(&mut logs, Log::NowConnected { name: self.name.clone(), connected });
                    self.phase = Phase::Discovering;
                    Action::DiscoverServices { peripheral: self.peripheral }
                },
                _ => self.abort(),
            },
            Phase::Discovering => match e {
                Event::Services { services } => {
                    emit(&mut logs, Log::Discovered { name: self.name.clone() });
                    push_services_logs(self.config, &services, &mut logs);
                    if self.connected {
                        emit(&mut logs, Log::Disconnecting { name: self.name.clone() });
                        self.phase = Phase::Disconnecting;
                        Action::Disconnect { peripheral: self.peripheral }
                    } else {
                        self.advance_peripheral(&logs)
                    }
                },
                _ => self.abort(),
            },
            Phase::Disconnecting => match e {
                Event::Done => self.advance_peripheral(&logs),
                _ => self.abort(),
            },
        };
        proof {
            reveal_strlit("(peripheral name unknown)");
            assert(logs_view(logs@) =~= next(pre, ev).logs);
        }
        Step { logs, action }
    }
}

} // verus!
