//! Verified core of the code-review file invalidation queue and the tab group model.
//!
//! - [`text`]: character-level substring search on strings.
//! - [`file_invalidation`]: classification of failed file invalidations.
//! - [`tab_group`]: the tab group data model.

pub mod text;
pub mod file_invalidation;
pub mod tab_group;
