//! A common trait for the localization of resources.

use crate::locale::{LanguageSet, Locale};
use vstd::prelude::*;

verus! {

/// A common trait for the localization of resources.
///
/// An implementor owns its translation data and serves lookups; the
/// locale only dictates this interface. `R` is the caller-facing output
/// type that `Self::Result` converts into.
pub trait Localization<R, Languages> where Languages: LanguageSet {
    /// The type used to search for a specific translation.
    type Key: PartialEq + Eq;

    /// The type used to insert data within a translation.
    type Argv;

    /// The type returned by localization. It converts into `R` for
    /// the end-user's convenience; a missing translation is encoded
    /// in the value itself, carrying the language and the key, and is
    /// never a failure of the call.
    type Result: core::convert::Into<R> + core::fmt::Debug;

    /// Notifies the implementor that the locale has changed, so that
    /// it rebuilds whatever per-language lookup tables it caches.
    fn set_locale(&mut self, locale: &Locale<Languages>);

    /// Given a key and arguments, localizes a resource.
    fn localize(&self, key: Self::Key, args: Self::Argv) -> Self::Result;
}

} // verus!
