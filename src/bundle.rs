use vstd::prelude::*;

use native_tls::TlsConnector;
use uuid::Uuid;

use crate::config::ApplicationConfig;
use crate::log::{Logger, Severity};
use crate::model::{Host, MacAddr, ScanReport, Service};
use crate::services::{
    ids_unique, lemma_later_descriptor_wins, lookup, merge_all, ServiceTable,
};
use crate::state::{persisted_text, state_text, ConnectionState};
use crate::tls::{connector_outcome, RuntimeError};

verus! {

/// The abstract state of the bundle.
pub ghost struct ContextState {
    pub config: ApplicationConfig,
    pub log: Seq<(Severity, Seq<char>)>,
    pub services: Seq<Service>,
    pub scanning: bool,
    pub scan_report: (Seq<Host>, Seq<Service>),
    pub conn_state: ConnectionState,
}

/// The message logged when the connection state could not be saved.
pub open spec fn save_failed_message() -> Seq<char> {
    "unable to save current connection state"@
}

impl ContextState {
    /// The state in which the bundle starts.
    pub open spec fn initial(config: ApplicationConfig) -> ContextState {
        ContextState {
            config,
            log: config.logger@,
            services: Seq::empty(),
            scanning: false,
            scan_report: (Seq::empty(), Seq::empty()),
            conn_state: ConnectionState::Disconnected,
        }
    }

    /// One more record in the log.
    pub open spec fn with_record(self, severity: Severity, message: Seq<char>) -> ContextState {
        ContextState { log: self.log.push((severity, message)), ..self }
    }

    pub open spec fn with_scanning(self, scanning: bool) -> ContextState {
        ContextState { scanning, ..self }
    }

    pub open spec fn with_scan_report(self, report: (Seq<Host>, Seq<Service>)) -> ContextState {
        ContextState { scan_report: report, ..self }
    }

    pub open spec fn with_services_cleared(self) -> ContextState {
        ContextState { services: Seq::empty(), ..self }
    }

    pub open spec fn with_services_merged(self, svcs: Seq<Service>) -> ContextState {
        ContextState { services: merge_all(self.services, svcs), ..self }
    }

    /// The in-memory transition of the connection state.
    pub open spec fn with_connection_state(self, state: ConnectionState) -> ContextState {
        ContextState { conn_state: state, ..self }
    }

    /// What the outcome of saving the connection state does: nothing when it
    /// was saved, one warning in the log when it was not.
    pub open spec fn after_save(self, saved: bool) -> ContextState {
        if saved {
            self
        } else {
            ContextState { log: self.log.push((Severity::Warn, save_failed_message())), ..self }
        }
    }
}

/// Connection-state transitions applied in order, each followed by the
/// outcome of saving it (`true` when the file was written).
pub open spec fn run_transitions(
    v: ContextState,
    steps: Seq<(ConnectionState, bool)>,
) -> ContextState
    decreases steps.len(),
{
    if steps.len() == 0 {
        v
    } else {
        run_transitions(v, steps.drop_last()).with_connection_state(steps.last().0).after_save(
            steps.last().1,
        )
    }
}

/// Number of failed saves among the steps.
pub open spec fn failed_saves(steps: Seq<(ConnectionState, bool)>) -> nat
    decreases steps.len(),
{
    if steps.len() == 0 {
        0
    } else {
        failed_saves(steps.drop_last()) + if steps.last().1 {
            0nat
        } else {
            1nat
        }
    }
}

/// After any sequence of transitions the connection state is the one set
/// last, whichever saves failed; the log grows by one record per failed save
/// and nothing else changes.
pub proof fn lemma_last_transition_wins(v: ContextState, steps: Seq<(ConnectionState, bool)>)
    ensures
        steps.len() > 0 ==> run_transitions(v, steps).conn_state == steps.last().0,
        run_transitions(v, steps).log.len() == v.log.len() + failed_saves(steps),
        run_transitions(v, steps).config == v.config,
        run_transitions(v, steps).services == v.services,
        run_transitions(v, steps).scanning == v.scanning,
        run_transitions(v, steps).scan_report == v.scan_report,
    decreases steps.len(),
{
    if steps.len() > 0 {
        lemma_last_transition_wins(v, steps.drop_last());
    }
}

/// A failed save leaves the new connection state in place and logs exactly
/// one warning with the fixed message.
pub proof fn lemma_failed_save_keeps_state(v: ContextState, state: ConnectionState)
    ensures
        v.with_connection_state(state).after_save(false).conn_state == state,
        v.with_connection_state(state).after_save(false).log == v.log.push(
            (Severity::Warn, save_failed_message()),
        ),
{
}

/// Setting the state to `Unauthorized` reads back `Unauthorized`, whose text
/// is `"unauthorized"`.
pub proof fn lemma_unauthorized_read_back(v: ContextState)
    ensures
        v.with_connection_state(ConnectionState::Unauthorized).conn_state
            == ConnectionState::Unauthorized,
        state_text(v.with_connection_state(ConnectionState::Unauthorized).conn_state)
            == "unauthorized"@,
{
}

/// The scanning flag reads back what was set.
pub proof fn lemma_scanning_read_back(v: ContextState, scanning: bool)
    ensures
        v.with_scanning(scanning).scanning == scanning,
{
}

/// Merging descriptors lets a later one overwrite an earlier one with the
/// same identifier; a reset leaves the registry empty.
pub proof fn lemma_registry_merge_and_reset(v: ContextState, svcs: Seq<Service>, j: int)
    requires
        ids_unique(v.services),
        0 <= j < svcs.len(),
        forall|k: int| j < k < svcs.len() ==> svcs[k].id != svcs[j].id,
    ensures
        lookup(v.with_services_merged(svcs).services, svcs[j].id) == Some(svcs[j]),
        v.with_services_cleared().services == Seq::<Service>::empty(),
{
    lemma_later_descriptor_wins(v.services, svcs, j);
}

/// A write of the connection-state file: replace the file at `path` by
/// `contents`.
#[derive(Debug)]
pub struct StateFileWrite {
    pub path: String,
    pub contents: String,
}

/// The mutable runtime state of the agent.
pub struct ApplicationContextData {
    logger: Logger,
    config: ApplicationConfig,
    services: ServiceTable,
    scanning: bool,
    scan_report: ScanReport,
    conn_state: ConnectionState,
}

impl View for ApplicationContextData {
    type V = ContextState;

    closed spec fn view(&self) -> ContextState {
        ContextState {
            config: self.config,
            log: self.logger@,
            services: self.services@,
            scanning: self.scanning,
            scan_report: self.scan_report@,
            conn_state: self.conn_state,
        }
    }
}

impl ApplicationContextData {
    /// Internal invariant: the service registry has unique identifiers.
    pub open spec fn wf(&self) -> bool {
        ids_unique(self@.services)
    }

    /// Take a given application config and create application context data.
    pub fn new(config: ApplicationConfig) -> (r: ApplicationContextData)
        ensures
            r.wf(),
            r@ == ContextState::initial(config),
    {
        let r = ApplicationContextData {
            logger: config.get_logger(),
            config,
            services: ServiceTable::new(),
            scanning: false,
            scan_report: ScanReport::new(),
            conn_state: ConnectionState::Disconnected,
        };
        proof {
            assert(r@ =~= ContextState::initial(config));
        }
        r
    }

    /// Get current version of the configuration.
    pub fn get_config_version(&self) -> (r: usize)
        ensures
            r == self@.config.version,
    {
        self.config.version
    }

    /// Get the client identifier.
    pub fn get_arrow_uuid(&self) -> (r: Uuid)
        ensures
            r == self@.config.uuid,
    {
        self.config.uuid
    }

    /// Get the client credential.
    pub fn get_arrow_password(&self) -> (r: Uuid)
        ensures
            r == self@.config.password,
    {
        self.config.password
    }

    /// Get the hardware address.
    pub fn get_arrow_mac_address(&self) -> (r: MacAddr)
        ensures
            r == self@.config.mac,
    {
        self.config.mac
    }

    /// Check if the application is in the diagnostic mode.
    pub fn get_diagnostic_mode(&self) -> (r: bool)
        ensures
            r == self@.config.diagnostic_mode,
    {
        self.config.diagnostic_mode
    }

    /// Get a copy of the application log.
    pub fn get_logger(&self) -> (r: Logger)
        ensures
            r@ == self@.log,
    {
        self.logger.copy()
    }

    /// Get a TLS connector made from the configuration.
    pub fn get_tls_connector(&self) -> (r: Result<TlsConnector, RuntimeError>)
        ensures
            connector_outcome(self@.config.root_certificates@, r),
    {
        self.config.get_tls_connector()
    }

    /// Set the state of the network scanner.
    pub fn set_scanning(&mut self, scanning: bool)
        requires
            old(self).wf(),
        ensures
            final(self).wf(),
            final(self)@ == old(self)@.with_scanning(scanning),
    {
        self.scanning = scanning;
    }

    /// Check if the network scanner is running right now.
    pub fn is_scanning(&self) -> (r: bool)
        ensures
            r == self@.scanning,
    {
        self.scanning
    }

    /// Get a copy of the last scan report.
    pub fn get_scan_report(&self) -> (r: ScanReport)
        ensures
            r@ == self@.scan_report,
    {
        self.scan_report.copy()
    }

    /// Replace the scan report.
    pub fn update_scan_report(&mut self, report: ScanReport)
        requires
            old(self).wf(),
        ensures
            final(self).wf(),
            final(self)@ == old(self)@.with_scan_report(report@),
    {
        self.scan_report = report;
    }

    /// Get a copy of the service registry.
    pub fn get_service_table(&self) -> (r: ServiceTable)
        requires
            self.wf(),
        ensures
            r.wf(),
            r@ == self@.services,
    {
        self.services.snapshot()
    }

    /// Empty the service registry.
    pub fn reset_service_table(&mut self)
        requires
            old(self).wf(),
        ensures
            final(self).wf(),
            final(self)@ == old(self)@.with_services_cleared(),
    {
        self.services.clear();
    }

    /// Merge services into the registry, in order.
    pub fn update_services(&mut self, services: Vec<Service>)
        requires
            old(self).wf(),
        ensures
            final(self).wf(),
            final(self)@ == old(self)@.with_services_merged(services@),
    {
        self.services.merge_services(services);
    }

    /// Get the connection state.
    pub fn get_connection_state(&self) -> (r: ConnectionState)
        ensures
            r == self@.conn_state,
    {
        self.conn_state
    }

    /// Set the connection state, then save it: `save` is handed the write
    /// of the connection-state file and answers whether it succeeded. The
    /// in-memory state is authoritative: a failed save is logged once as a
    /// warning and otherwise discarded; the caller is never told of it.
    /// Called through `ApplicationContext`, `save` runs under the lock.
    pub fn set_connection_state<F: FnOnce(StateFileWrite) -> bool>(
        &mut self,
        state: ConnectionState,
        save: F,
    )
        requires
            old(self).wf(),
            forall|w: StateFileWrite| save.requires((w,)),
        ensures
            final(self).wf(),
            exists|w: StateFileWrite, saved: bool|
                {
                    &&& w.path@ == old(self)@.config.connection_state_file@
                    &&& w.contents@ == persisted_text(state)
                    &&& #[trigger] save.ensures((w,), saved)
                    &&& final(self)@ == old(self)@.with_connection_state(state).after_save(saved)
                },
            old(self)@.log.is_prefix_of(final(self)@.log),
    {
        self.conn_state = state;
        let w = StateFileWrite {
            path: self.config.connection_state_file.clone(),
            contents: state.persisted_line(),
        };
        let ghost gw = w;
        let saved = save(w);
        let ghost mid = self@.log;
        self.record_save_result(saved);
        assert(save.ensures((gw,), saved));
        assert(mid =~= self@.log.subrange(0, mid.len() as int));
    }

    /// Take note of the outcome of a connection-state write.
    fn record_save_result(&mut self, saved: bool)
        requires
            old(self).wf(),
        ensures
            final(self).wf(),
            final(self)@ == old(self)@.after_save(saved),
    {
        if !saved {
            self.logger.log(Severity::Warn, "unable to save current connection state");
        }
    }

    /// Add a record to the application log.
    pub fn log(&mut self, severity: Severity, message: &str)
        requires
            old(self).wf(),
        ensures
            final(self).wf(),
            final(self)@ == old(self)@.with_record(severity, message@),
            old(self)@.log.is_prefix_of(final(self)@.log),
    {
        self.logger.log(severity, message);
        assert(old(self)@.log =~= self@.log.subrange(0, old(self)@.log.len() as int));
    }
}

} // verus!
