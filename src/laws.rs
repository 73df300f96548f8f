//! Properties of the scan pass, proved over the transition function [`next`].

use vstd::prelude::*;
use crate::scan::{
    found_logs, next, one_service_logs, placeholder_name, service_logs, Action, EventModel,
    LogModel, Phase, ScanConfig, ServiceModel, SessionModel,
};

verus! {

/// How many lines signal the target service.
pub open spec fn found_count(logs: Seq<LogModel>) -> nat
    decreases logs.len(),
{
    if logs.len() == 0 {
        0
    } else {
        found_count(logs.drop_last()) + if logs.last() is FoundTarget { 1nat } else { 0nat }
    }
}

/// How many of the services carry the identifier `target`.
pub open spec fn target_count(target: u128, svs: Seq<ServiceModel>) -> nat
    decreases svs.len(),
{
    if svs.len() == 0 {
        0
    } else {
        target_count(target, svs.drop_last()) + if svs.last().uuid == target { 1nat } else { 0nat }
    }
}

proof fn lemma_found_count_add(a: Seq<LogModel>, b: Seq<LogModel>)
    ensures
        found_count(a + b) == found_count(a) + found_count(b),
    decreases b.len(),
{
    if b.len() > 0 {
        lemma_found_count_add(a, b.drop_last());
        assert((a + b).drop_last() =~= a + b.drop_last());
    } else {
        assert(a + b =~= a);
    }
}

proof fn lemma_found_count_all(logs: Seq<LogModel>)
    requires
        forall|i: int| 0 <= i < logs.len() ==> #[trigger] logs[i] is FoundTarget,
    ensures
        found_count(logs) == logs.len(),
    decreases logs.len(),
{
    if logs.len() > 0 {
        lemma_found_count_all(logs.drop_last());
    }
}

proof fn lemma_found_count_none(logs: Seq<LogModel>)
    requires
        forall|i: int| 0 <= i < logs.len() ==> !(#[trigger] logs[i] is FoundTarget),
    ensures
        found_count(logs) == 0,
    decreases logs.len(),
{
    if logs.len() > 0 {
        lemma_found_count_none(logs.drop_last());
    }
}

proof fn lemma_one_service_found(config: ScanConfig, sv: ServiceModel)
    ensures
        found_count(one_service_logs(config, sv))
            == if sv.uuid == config.target_service { config.found_repeats as nat } else { 0 },
{
    let f = found_logs(config, sv.uuid);
    let line = seq![LogModel::ServiceLine { uuid: sv.uuid, primary: sv.primary }];
    let chars = sv.characteristics.map_values(|c: u128| LogModel::CharacteristicLine { uuid: c });
    lemma_found_count_all(f);
    lemma_found_count_none(line);
    lemma_found_count_none(chars);
    lemma_found_count_add(f, line);
    lemma_found_count_add(f + line, chars);
}

/// The target service is signalled `found_repeats` times for each service that
/// carries its identifier, and never otherwise.
pub proof fn found_signal_count(config: ScanConfig, svs: Seq<ServiceModel>)
    ensures
        found_count(service_logs(config, svs))
            == config.found_repeats * target_count(config.target_service, svs),
    decreases svs.len(),
{
    if svs.len() > 0 {
        found_signal_count(config, svs.drop_last());
        lemma_one_service_found(config, svs.last());
        lemma_found_count_add(service_logs(config, svs.drop_last()), one_service_logs(config, svs.last()));
        let r = config.found_repeats as int;
        let a = target_count(config.target_service, svs.drop_last()) as int;
        let b: int = if svs.last().uuid == config.target_service { 1 } else { 0 };
        assert(r * (a + b) == r * a + r * b) by (nonlinear_arith);
        assert(r * b == if b == 1 { r } else { 0 }) by (nonlinear_arith)
            requires
                b == 0 || b == 1;
        assert(target_count(config.target_service, svs) == a + b);
        assert(found_count(service_logs(config, svs)) == found_count(service_logs(config, svs.drop_last()))
            + found_count(one_service_logs(config, svs.last())));
    } else {
        assert(found_count(service_logs(config, svs)) == 0);
        assert(config.found_repeats * 0 == 0);
    }
}

/// When a peripheral's services are listed, the lines of that step signal the
/// target exactly `found_repeats` times per matching service: `found_repeats`
/// times for a single matching service, never when none matches.
pub proof fn services_step_found_count(s: SessionModel, svs: Seq<ServiceModel>)
    requires
        s.wf(),
        (s.phase is Discovering),
    ensures
        found_count(next(s, (EventModel::Services { services: svs })).logs)
            == s.config.found_repeats * target_count(s.config.target_service, svs),
        target_count(s.config.target_service, svs) == 1
            ==> found_count(next(s, (EventModel::Services { services: svs })).logs) == s.config.found_repeats,
        target_count(s.config.target_service, svs) == 0
            ==> found_count(next(s, (EventModel::Services { services: svs })).logs) == 0,
{
    let head = seq![LogModel::Discovered { name: s.name }];
    let tail = seq![LogModel::Disconnecting { name: s.name }];
    let body = service_logs(s.config, svs);
    found_signal_count(s.config, svs);
    lemma_found_count_none(head);
    lemma_found_count_none(tail);
    lemma_found_count_add(head, body);
    lemma_found_count_add(head + body, tail);
    lemma_found_count_all(Seq::<LogModel>::empty());
}

/// With no adapter the pass logs one error and ends normally, asking for no scan.
pub proof fn no_adapters_ends_pass(s: SessionModel)
    requires
        s.wf(),
        (s.phase is ListingAdapters),
    ensures
        next(s, (EventModel::Adapters { count: 0 })).logs == seq![LogModel::NoAdapters],
        next(s, (EventModel::Adapters { count: 0 })).action == Action::Finish,
        (next(s, (EventModel::Adapters { count: 0 })).state.phase is Finished),
{
}

/// A finished pass stays finished: whatever comes, it logs nothing and asks for nothing.
pub proof fn finished_is_final(s: SessionModel, e: EventModel)
    requires
        (s.phase is Finished),
    ensures
        next(s, e).state == s,
        next(s, e).logs.len() == 0,
        next(s, e).action == Action::Finish,
{
}

/// An adapter that saw no peripheral logs one error, and the pass moves on to
/// the next adapter or ends, without connecting to anything.
pub proof fn no_peripherals_no_connect(s: SessionModel)
    requires
        s.wf(),
        (s.phase is ListingPeripherals),
    ensures
        next(s, (EventModel::Peripherals { count: 0 })).logs == seq![LogModel::NoPeripherals],
        next(s, (EventModel::Peripherals { count: 0 })).action == (Action::StartScan { adapter: (s.adapter + 1) as usize })
            || next(s, (EventModel::Peripherals { count: 0 })).action == Action::Finish,
        !(next(s, (EventModel::Peripherals { count: 0 })).action is Connect),
        !(next(s, (EventModel::Peripherals { count: 0 })).state.phase is Connecting),
{
}

/// A failed connection is logged and the peripheral skipped: the pass goes on
/// with the next peripheral, the next adapter, or ends, and neither discovers
/// services on it nor disconnects from it.
pub proof fn failed_connect_skips(s: SessionModel, reason: Seq<char>)
    requires
        s.wf(),
        (s.phase is Connecting),
    ensures
        next(s, (EventModel::Failed { reason })).logs == seq![(LogModel::ConnectFailed { reason })],
        next(s, (EventModel::Failed { reason })).action == (Action::ReadPeripheral { peripheral: (s.peripheral + 1) as usize })
            || next(s, (EventModel::Failed { reason })).action == (Action::StartScan { adapter: (s.adapter + 1) as usize })
            || next(s, (EventModel::Failed { reason })).action == Action::Finish,
        !(next(s, (EventModel::Failed { reason })).action is DiscoverServices),
        !(next(s, (EventModel::Failed { reason })).action is Disconnect),
{
}

/// A peripheral that advertises no name is known by the placeholder name.
pub proof fn unnamed_peripheral_placeholder(s: SessionModel, connected: bool)
    requires
        s.wf(),
        (s.phase is ReadingPeripheral),
    ensures
        next(s, (EventModel::PeripheralRead { name: None, connected })).state.name == placeholder_name(),
        next(s, (EventModel::PeripheralRead { name: None, connected })).logs[0]
            == (LogModel::PeripheralStatus { name: placeholder_name(), connected }),
{
}

/// Peripherals are listed only once the reported sleeps since the scan began
/// add up to the dwell time: the dwell starts at zero with a sleep of the whole
/// dwell, each sleep adds what the driver reports, and the listing comes only
/// when the total reaches the dwell.
pub proof fn listing_follows_dwell(s: SessionModel, e: EventModel)
    requires
        s.wf(),
    ensures
        (next(s, e).action is ListPeripherals) ==> ((s.phase is Dwelling) && (e is Slept)
            && s.phase->waited_ms + e->elapsed_ms >= s.config.dwell_ms),
        (next(s, e).state.phase is Dwelling) ==> (
            ((s.phase is StartingScan) && next(s, e).state.phase->waited_ms == 0
                && next(s, e).action == (Action::Sleep { ms: s.config.dwell_ms }))
            || ((s.phase is Dwelling) && (e is Slept)
                && next(s, e).state.phase->waited_ms == s.phase->waited_ms + e->elapsed_ms
                && next(s, e).action == (Action::Sleep {
                    ms: (s.config.dwell_ms - next(s, e).state.phase->waited_ms) as u64,
                }))),
{
}

} // verus!
