//! Acquisition and runtime-compatibility resolution for the fsautocomplete
//! language server: picking the latest published build, planning its local
//! installation, probing the installed dotnet runtime, scanning the shipped
//! target-framework variants, and deriving the launch environment.

pub mod acquire;
pub mod cache;
pub mod catalog;
pub mod error;
pub mod probe;
pub mod resolver;
pub mod scanner;
pub mod version;
