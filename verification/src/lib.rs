//! Verified business rules of the InheritX backend: bridge routing, compliance
//! screening decisions, governance parameter validation, insurance-fund
//! accounting rules, lending risk decisions, request middleware decisions,
//! legacy-message rules and estate-optimizer validation.

pub mod ai_optimizer;
pub mod allbridge;
pub mod compliance;
pub mod data_retention;
pub mod decimal;
pub mod emergency_access_jobs;
pub mod error;
pub mod external_integrations;
pub mod governance;
pub mod graphql;
pub mod inactivity_watchdog;
pub mod insurance;
pub mod lending;
pub mod middleware;
pub mod secure_messages;
pub mod text;
