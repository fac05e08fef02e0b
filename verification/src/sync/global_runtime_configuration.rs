//! Provides a one-time initialized global runtime configuration.

use vstd::prelude::*;

verus! {

/// Represents a configuration value that is set at most once and read
/// thereafter. The first initialization wins; later ones change nothing.
///
/// Reading before initialization yields nothing rather than an undefined
/// value, so callers fail loudly instead of continuing on garbage.
pub struct GlobalRuntimeConfiguration<T> {
    /// The value, once it has been set.
    inner: Option<T>,
}

impl<T> GlobalRuntimeConfiguration<T> {
    /// The stored value, absent until the first initialization.
    pub closed spec fn value(&self) -> Option<T> {
        self.inner
    }

    /// Creates a new, uninitialized global runtime configuration.
    pub fn new() -> (config: GlobalRuntimeConfiguration<T>)
        ensures
            config.value() is None,
    {
        GlobalRuntimeConfiguration { inner: None }
    }

    /// Initializes the configuration with the given value, if it isn't
    /// already initialized.
    pub fn init(&mut self, val: T)
        ensures
            final(self).value() == (if old(self).value() is Some {
                old(self).value()
            } else {
                Some(val)
            }),
    {
        if self.inner.is_none() {
            self.inner = Some(val);
        }
    }

    /// Returns the value in the global configuration, if it exists.
    pub fn get(&self) -> (val: Option<&T>)
        ensures
            match val {
                Some(v) => self.value() == Some(*v),
                None => self.value() is None,
            },
    {
        self.inner.as_ref()
    }
}

} // verus!
