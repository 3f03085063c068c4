use vstd::prelude::*;
use vstd::rwlock::{RwLock, RwLockPredicate};

use std::sync::Arc;

use native_tls::TlsConnector;
use uuid::Uuid;

use crate::bundle::{ApplicationContextData, StateFileWrite};
use crate::config::ApplicationConfig;
use crate::log::{Logger, Severity};
use crate::model::{MacAddr, ScanReport, Service};
use crate::services::ServiceTable;
use crate::state::{persisted_text, ConnectionState};
use crate::tls::{connector_outcome, RuntimeError};

verus! {

/// What the lock guarantees of the bundle it guards: it is well formed and
/// holds the configuration the context was made with, and its log begins
/// with the configured records.
pub struct ContextPredicate {
    pub config: ApplicationConfig,
}

impl RwLockPredicate<ApplicationContextData> for ContextPredicate {
    open spec fn inv(self, d: ApplicationContextData) -> bool {
        &&& d.wf()
        &&& d@.config == self.config
        &&& self.config.logger@.is_prefix_of(d@.log)
    }
}

/// A prefix of a prefix is a prefix.
proof fn lemma_prefix_trans<A>(a: Seq<A>, b: Seq<A>, c: Seq<A>)
    requires
        a.is_prefix_of(b),
        b.is_prefix_of(c),
    ensures
        a.is_prefix_of(c),
{
    assert(a =~= c.subrange(0, a.len() as int)) by {
        assert forall|i: int| 0 <= i < a.len() implies a[i] == c[i] by {
            assert(a[i] == b.subrange(0, a.len() as int)[i]);
            assert(b[i] == c.subrange(0, b.len() as int)[i]);
        }
    }
}

/// Application context: a shared handle to the runtime state. Clones share
/// the same state; every operation takes the one exclusive lock for its
/// whole duration and performs one operation of the bundle. Other handles
/// may change the mutable parts between two calls, so what a call reads of
/// them is stated on `ApplicationContextData`; what is fixed (the
/// configuration) and what only grows (the log) is stated here.
///
/// The lock does not recover from a holder that never releases it: the
/// `save` closure given to `set_connection_state` runs under the lock, so it
/// must not panic and must not call this handle or any of its clones, or
/// every later call on any handle blocks for ever.
pub struct ApplicationContext {
    data: Arc<RwLock<ApplicationContextData, ContextPredicate>>,
}

/// Relies on Arc::clone: another pointer to the same allocation.
#[verifier::external_body]
fn share_arc<T>(a: &Arc<T>) -> (r: Arc<T>)
    ensures
        r == *a,
{
    Arc::clone(a)
}

impl Clone for ApplicationContext {
    /// Another handle to the same state, under the same lock.
    fn clone(&self) -> (r: Self)
        ensures
            r == *self,
            r.config() == self.config(),
    {
        ApplicationContext { data: share_arc(&self.data) }
    }
}

impl ApplicationContext {
    /// The configuration the context was made with.
    pub closed spec fn config(&self) -> ApplicationConfig {
        self.data.pred().config
    }

    /// Take a given application config and create a new application context.
    pub fn new(config: ApplicationConfig) -> (r: ApplicationContext)
        ensures
            r.config() == config,
    {
        let ghost c = config;
        let d = ApplicationContextData::new(config);
        let lock = RwLock::new(d, Ghost(ContextPredicate { config: c }));
        ApplicationContext { data: Arc::new(lock) }
    }

    /// Get current version of the configuration.
    pub fn get_config_version(&self) -> (r: usize)
        ensures
            r == self.config().version,
    {
        let (d, h) = self.data.acquire_write();
        let r = d.get_config_version();
        h.release_write(d);
        r
    }

    /// Get the client identifier.
    pub fn get_arrow_uuid(&self) -> (r: Uuid)
        ensures
            r == self.config().uuid,
    {
        let (d, h) = self.data.acquire_write();
        let r = d.get_arrow_uuid();
        h.release_write(d);
        r
    }

    /// Get the client credential.
    pub fn get_arrow_password(&self) -> (r: Uuid)
        ensures
            r == self.config().password,
    {
        let (d, h) = self.data.acquire_write();
        let r = d.get_arrow_password();
        h.release_write(d);
        r
    }

    /// Get the hardware address.
    pub fn get_arrow_mac_address(&self) -> (r: MacAddr)
        ensures
            r == self.config().mac,
    {
        let (d, h) = self.data.acquire_write();
        let r = d.get_arrow_mac_address();
        h.release_write(d);
        r
    }

    /// Check if the application is in the diagnostic mode.
    pub fn get_diagnostic_mode(&self) -> (r: bool)
        ensures
            r == self.config().diagnostic_mode,
    {
        let (d, h) = self.data.acquire_write();
        let r = d.get_diagnostic_mode();
        h.release_write(d);
        r
    }

    /// Get a copy of the shared application log: the configured records and
    /// every record logged since through any clone of this handle.
    pub fn get_logger(&self) -> (r: Logger)
        ensures
            self.config().logger@.is_prefix_of(r@),
    {
        let (d, h) = self.data.acquire_write();
        let r = d.get_logger();
        h.release_write(d);
        r
    }

    /// Get a TLS connector made from the configuration.
    pub fn get_tls_connector(&self) -> (r: Result<TlsConnector, RuntimeError>)
        ensures
            connector_outcome(self.config().root_certificates@, r),
    {
        let (d, h) = self.data.acquire_write();
        let r = d.get_tls_connector();
        h.release_write(d);
        r
    }

    /// Set the state of the network scanner.
    pub fn set_scanning(&mut self, scanning: bool)
        ensures
            final(self).config() == old(self).config(),
    {
        let (mut d, h) = self.data.acquire_write();
        d.set_scanning(scanning);
        h.release_write(d);
    }

    /// Check if the network scanner is running right now.
    pub fn is_scanning(&self) -> (r: bool) {
        let (d, h) = self.data.acquire_write();
        let r = d.is_scanning();
        h.release_write(d);
        r
    }

    /// Get a copy of the last scan report.
    pub fn get_scan_report(&self) -> (r: ScanReport) {
        let (d, h) = self.data.acquire_write();
        let r = d.get_scan_report();
        h.release_write(d);
        r
    }

    /// Replace the scan report.
    pub fn update_scan_report(&mut self, report: ScanReport)
        ensures
            final(self).config() == old(self).config(),
    {
        let (mut d, h) = self.data.acquire_write();
        d.update_scan_report(report);
        h.release_write(d);
    }

    /// Get a copy of the service registry.
    pub fn get_service_table(&self) -> (r: ServiceTable)
        ensures
            r.wf(),
    {
        let (d, h) = self.data.acquire_write();
        let r = d.get_service_table();
        h.release_write(d);
        r
    }

    /// Empty the service registry.
    pub fn reset_service_table(&mut self)
        ensures
            final(self).config() == old(self).config(),
    {
        let (mut d, h) = self.data.acquire_write();
        d.reset_service_table();
        h.release_write(d);
    }

    /// Get the connection state.
    pub fn get_connection_state(&self) -> (r: ConnectionState) {
        let (d, h) = self.data.acquire_write();
        let r = d.get_connection_state();
        h.release_write(d);
        r
    }

    /// Set the connection state and save it while holding the lock: `save`
    /// is handed the write of the connection-state file and answers whether
    /// it succeeded. A failed save is logged once as a warning and never
    /// reported to the caller; the in-memory state is authoritative.
    /// `save` runs under the lock: it must not panic and must not call this
    /// handle or any of its clones.
    pub fn set_connection_state<F: FnOnce(StateFileWrite) -> bool>(
        &mut self,
        state: ConnectionState,
        save: F,
    )
        requires
            forall|w: StateFileWrite| save.requires((w,)),
        ensures
            final(self).config() == old(self).config(),
            exists|w: StateFileWrite, saved: bool|
                {
                    &&& w.path@ == old(self).config().connection_state_file@
                    &&& w.contents@ == persisted_text(state)
                    &&& #[trigger] save.ensures((w,), saved)
                },
    {
        let (mut d, h) = self.data.acquire_write();
        let ghost before = d@.log;
        d.set_connection_state(state, save);
        proof {
            lemma_prefix_trans(self.config().logger@, before, d@.log);
        }
        h.release_write(d);
    }

    /// Add a record to the shared application log.
    pub fn log(&self, severity: Severity, message: &str) {
        let (mut d, h) = self.data.acquire_write();
        let ghost before = d@.log;
        d.log(severity, message);
        proof {
            lemma_prefix_trans(self.config().logger@, before, d@.log);
        }
        h.release_write(d);
    }

    /// Merge services into the registry, in order.
    pub fn update_services(&mut self, services: Vec<Service>)
        ensures
            final(self).config() == old(self).config(),
    {
        let (mut d, h) = self.data.acquire_write();
        d.update_services(services);
        h.release_write(d);
    }
}

} // verus!
