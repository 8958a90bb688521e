//! Configuration for the bootstrap entry point of a test binary: hooks
//! the entry point runs before and after the main test pass. The hook
//! type `F` is whatever callable the driver's environment uses; the
//! harness only stores and hands back the hooks, it never invokes them.

use vstd::prelude::*;

verus! {

/// The bootstrap configuration: optional hooks around the test pass.
pub struct KlibConfig<F> {
    /// Runs once before the first test, if present.
    pub before_tests: Option<F>,
    /// Runs once after the last test, if present.
    pub after_tests: Option<F>,
}

impl<F> KlibConfig<F> {
    /// A configuration with no hooks.
    pub fn new_default() -> (c: Self)
        ensures
            c.before_tests is None,
            c.after_tests is None,
    {
        KlibConfig { before_tests: None, after_tests: None }
    }
}

/// A builder for [`KlibConfig`].
pub struct KlibConfigBuilder<F> {
    /// Runs once before the first test, if present.
    pub before_tests: Option<F>,
    /// Runs once after the last test, if present.
    pub after_tests: Option<F>,
}

impl<F> KlibConfigBuilder<F> {
    /// A builder with no hooks.
    pub fn new_default() -> (b: Self)
        ensures
            b.before_tests is None,
            b.after_tests is None,
    {
        KlibConfigBuilder { before_tests: None, after_tests: None }
    }

    /// A builder holding the given hooks.
    pub fn new(before_tests: Option<F>, after_tests: Option<F>) -> (b: Self)
        ensures
            b.before_tests == before_tests,
            b.after_tests == after_tests,
    {
        KlibConfigBuilder { before_tests, after_tests }
    }

    /// The configuration holding the builder's hooks.
    pub fn build(self) -> (c: KlibConfig<F>)
        ensures
            c.before_tests == self.before_tests,
            c.after_tests == self.after_tests,
    {
        KlibConfig { before_tests: self.before_tests, after_tests: self.after_tests }
    }

    /// Sets the hook run before the first test.
    pub fn before_tests(self, before_tests: F) -> (b: Self)
        ensures
            b.before_tests matches Some(f) && f == before_tests,
            b.after_tests == self.after_tests,
    {
        KlibConfigBuilder { before_tests: Some(before_tests), after_tests: self.after_tests }
    }

    /// Sets the hook run after the last test.
    pub fn after_tests(self, after_tests: F) -> (b: Self)
        ensures
            b.after_tests matches Some(f) && f == after_tests,
            b.before_tests == self.before_tests,
    {
        KlibConfigBuilder { before_tests: self.before_tests, after_tests: Some(after_tests) }
    }
}

} // verus!
