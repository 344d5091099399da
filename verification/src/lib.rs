//! Coordination library for work packets, claims and repo-ops authority facts.
pub mod apply_gate;
pub mod archive_cleanup;
pub mod authority;
pub mod bd;
pub mod current_work;
pub mod digest;
pub mod error;
pub mod maintenance;
pub mod meta_task;
pub mod model;
pub mod observability;
pub mod openspec;
pub mod operator_blocker;
pub mod prose_intake;
pub mod provenance;
pub mod openspec_import;
pub mod queue;
pub mod repoops;
pub mod reservation;
pub mod session;
pub mod snapshot;
pub mod status;
pub mod text;
pub mod validate;
pub mod vcs_projection;
