//! A test-execution harness for freestanding kernel and firmware code.
//!
//! The harness drains a fixed table of test cases in order, reports each
//! result as one line of structured text, and finally asks the host
//! machine to exit with a status code. A test body that faults does not
//! return to the runner; the surrounding environment reports the fault
//! to the harness, which classifies it, records a result, and resumes at
//! the next test. The harness itself performs no I/O and never invokes a
//! test body: it hands every such action to its driver as a [`test::runner::RunStep`]
//! and consumes the outcome the driver reports back.

use vstd::prelude::*;

pub mod args;
pub mod macros;
pub mod qemu;
pub mod text;

pub use macros::klib::KlibConfig;
pub use macros::klib::KlibConfigBuilder;
pub use test::runner::runner;
pub use test::split_module_path;
pub use test::split_module_path_len;
pub use test::Test;

verus! {

/// Initializes the harness by recording the test group name in `slot`,
/// once: a name already recorded is kept. This should be called before
/// the runner starts.
pub fn init_harness(slot: &mut Option<String>, test_group: &str)
    ensures
        (*old(slot)) is Some ==> *final(slot) == *old(slot),
        (*old(slot)) is None ==> (*final(slot) matches Some(g) && g@ == test_group@),
{
    args::set_test_group(slot, test_group);
}

} // verus!
