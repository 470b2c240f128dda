//! Dependency declarations of a crate and the analysis of which of them are outdated.
pub mod analysis;
pub mod deps;
pub mod name;
pub mod version;

pub use analysis::{AnalyzedDependencies, AnalyzedDependency};
pub use deps::{CrateDep, CrateDeps, CrateManifest, CrateRelease};
pub use name::{CrateName, InvalidName};
pub use version::{Identifier, Version};
