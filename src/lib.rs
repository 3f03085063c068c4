//! Shared runtime state of a network agent: connection state, scanner
//! status, the last scan report and the service registry, behind one lock.

pub mod bundle;
pub mod config;
pub mod context;
pub mod log;
pub mod model;
pub mod services;
pub mod state;
pub mod tls;

pub use bundle::{ApplicationContextData, StateFileWrite};
pub use config::ApplicationConfig;
pub use context::ApplicationContext;
pub use log::{Logger, Severity};
pub use model::{Host, MacAddr, ScanReport, Service, ServiceKind};
pub use services::ServiceTable;
pub use state::ConnectionState;
pub use tls::RuntimeError;
