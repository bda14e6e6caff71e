//! Offloading a slow series computation to a background worker: the message
//! protocol between controller and worker, its byte encoding, the controller's
//! lifecycle state machine, the worker's dispatch decisions, and the policy
//! that picks the iterations at which progress is reported.
pub mod types;
pub mod scheduler;
pub mod protocol;
pub mod worker;
pub mod laborer;
