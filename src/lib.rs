//! Build service for on-chain programs: a verified core for admitting build
//! jobs, tracking their state, deciding the outcome of a toolchain run and
//! locating the resulting artifact, plus the program-side key and
//! instruction types that deployed programs are addressed with.

pub mod api;
pub mod artifact;
pub mod config;
pub mod error;
pub mod instruction;
pub mod jobs;
pub mod program_error;
pub mod pubkey;
pub mod sanitized;
pub mod system_instruction;
pub mod text;
pub mod toolchain;
pub mod tracker;
pub mod workspace;
