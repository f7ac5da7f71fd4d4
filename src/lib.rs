//! A layered computation: a pure sum, an orchestrator that is handed the
//! operation that fetches one operand, a concrete fetch, and the root that
//! wires the concrete fetch into the orchestrator.
pub mod api;
pub mod domain;
pub mod infra;
pub mod pure;
