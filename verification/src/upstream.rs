//! The trusted boundary to the two upstream error crates and to the
//! diagnostic stream. Each item here makes one outside call; the verified
//! code takes the returned plain values and does the rest.

use std::io::Write;
use vstd::prelude::*;

verus! {

/// anyhow's error type, carried opaquely through the boundary.
#[verifier::external_type_specification]
#[verifier::external_body]
pub struct ExContextualError(anyhow::Error);

/// Relies on anyhow::Error's Display impl: it writes the outermost message
/// of the context chain. Nothing is assumed of the text itself.
#[verifier::external_body]
pub(crate) fn contextual_error_text(err: &anyhow::Error) -> String {
    format!("{}", err)
}

/// Relies on std::io::stderr: writes one line to the diagnostic stream. A
/// failed write is discarded rather than raised, so the call never panics.
#[verifier::external_body]
pub(crate) fn emit_diagnostic_line(line: &str) {
    let _ = writeln!(std::io::stderr(), "{}", line);
}

} // verus!
