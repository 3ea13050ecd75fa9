//! Progress and warning lines on the standard output stream.
use std::io::Write;
use vstd::prelude::*;

verus! {

/// Relies on `write_fmt`, through `writeln`, to put the progress line
/// naming the sheet being imported on the standard output stream.
#[verifier::external_body]
pub(crate) fn emit_importing(name: &str) {
    let _ = writeln!(std::io::stdout(), "     importing {}...", name);
}

/// Relies on `write_fmt`, through `writeln`, to put the warning line on the
/// standard output stream when a ceiling is first exceeded.
#[verifier::external_body]
pub(crate) fn emit_limit_warning(counter_id: &str, counter_max: u32) {
    let _ = writeln!(
        std::io::stdout(),
        "     Warning: maximum number of {} ({}) exceeded",
        counter_id,
        counter_max,
    );
}

} // verus!
