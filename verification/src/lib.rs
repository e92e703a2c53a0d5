//! Locale state and per-language asset-path resolution.
//!
//! The crate tracks a main and a fallback language for an application,
//! validates language tags, and rewrites asset paths so that they point
//! into a language-specific folder.

pub mod locale;
pub mod localization;

pub use locale::{AssetPath, Language, LanguageError, LanguageSet, Locale, ToLocalePathError};
pub use localization::Localization;
