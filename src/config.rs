use vstd::prelude::*;

use uuid::Uuid;

use crate::log::Logger;
use crate::model::MacAddr;
use crate::tls::{make_tls_connector, RuntimeError, connector_outcome};
use native_tls::TlsConnector;

verus! {

/// uuid::Uuid, carried opaquely as the client identifier and credential.
#[verifier::external_type_specification]
#[verifier::external_body]
pub struct ExUuid(Uuid);

/// Identity and settings of the agent, fixed for the life of the process.
pub struct ApplicationConfig {
    /// Version of the configuration, as assigned by its owner.
    pub version: usize,
    /// Client identifier.
    pub uuid: Uuid,
    /// Client credential.
    pub password: Uuid,
    /// Hardware address of the agent.
    pub mac: MacAddr,
    /// Whether the agent runs in the reduced diagnostic mode.
    pub diagnostic_mode: bool,
    /// Path of the file that mirrors the connection state.
    pub connection_state_file: String,
    /// Extra trusted root certificates, PEM encoded.
    pub root_certificates: Vec<Vec<u8>>,
    /// The application log as configured at start.
    pub logger: Logger,
}

impl ApplicationConfig {
    /// Get the configured log.
    pub fn get_logger(&self) -> (r: Logger)
        ensures
            r@ == self.logger@,
    {
        self.logger.copy()
    }

    /// Make a TLS connector from the configured certificates.
    pub fn get_tls_connector(&self) -> (r: Result<TlsConnector, RuntimeError>)
        ensures
            connector_outcome(self.root_certificates@, r),
    {
        make_tls_connector(&self.root_certificates)
    }
}

} // verus!
