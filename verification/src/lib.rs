//! A dual-agent checklist-delivery orchestrator. A fast "planner" agent
//! decides the next unit of work, a stronger "implementer" agent performs
//! it; the loop reads the checklist, delegates, runs the configured test
//! commands with a bounded fix-retry budget, optionally commits, and marks
//! the finished item off — until the checklist is empty, the planner signals
//! completion, or the iteration budget runs out.
//!
//! The library holds everything that decides: the checklist document model,
//! the planner-output decision protocol, prompt assembly, configuration
//! validation, and the run's state machine, which asks its caller to perform
//! each outside effect (file reads and writes, agent processes, shell
//! commands) and consumes the outcome as a plain value.
pub mod agent;
pub mod config;
pub mod decision;
pub mod prd;
pub mod prompt;
pub mod runner;
pub mod text;
