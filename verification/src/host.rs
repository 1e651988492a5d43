//! What the library takes from the machine it runs on, and from the
//! conventions of its platform.

use vstd::prelude::*;

verus! {

/// The exit code of a process that ends on a configuration error.
pub const CONFIG: i32 = 78;

/// The exit code for a configuration error, `exitcode::CONFIG`.
///
/// Trusted: the `exitcode` crate defines this constant as 78, the value that
/// `sysexits.h` gives to `EX_CONFIG`.
#[verifier::external_body]
pub(crate) fn config_error() -> (code: exitcode::ExitCode)
    ensures
        code == CONFIG,
{
    exitcode::CONFIG
}

/// Whether the standard output is a terminal, `atty::is(atty::Stream::Stdout)`.
///
/// Trusted, and nothing is claimed of the answer: it depends on how the
/// process was started.
#[verifier::external_body]
pub(crate) fn stdout_is_tty() -> (tty: bool) {
    atty::is(atty::Stream::Stdout)
}

/// The number of processors that the process may use, `num_cpus::get()`.
///
/// Trusted, and nothing is claimed of the answer: it depends on the machine,
/// and the crate does not bound it below on every platform.
#[verifier::external_body]
pub(crate) fn available_cpus() -> (n: usize) {
    num_cpus::get()
}

} // verus!
