//! Inspection of a project's direct dependencies: listing, registry lookup,
//! status classification and upgrade planning.

pub mod args;
pub mod classify;
pub mod dep;
pub mod lister;
pub mod registry;
pub mod render;
pub mod status;
pub mod text;
pub mod upgrade;
pub mod versions;
