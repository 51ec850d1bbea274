//! Decision logic of a bridge that turns LaTeX source handed over by a managed
//! host into a PDF file and answers with a single success flag.
//!
//! A call is a short state machine. The library decodes the host's strings and
//! then says what is to be done next: run the typesetting engine, write the
//! file, or return. Whoever drives it performs that action, reports how it
//! went, and in the end hands the host the byte that [`outcome::signal`] gives.

pub mod host;
pub mod laws;
pub mod machine;
pub mod outcome;
