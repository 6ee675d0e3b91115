//! Orchestration core of a multi-tenant worker host: the lifecycle of one
//! worker, the supervisor that governs its CPU time, and the registry of live
//! workers, each as a verified state machine that a runtime drives.
pub mod supervisor;
pub mod worker;
pub mod pool;
pub mod dh;
pub mod metrics;
