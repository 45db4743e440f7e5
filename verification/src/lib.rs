//! An interactive command-line assistant, verified.
//!
//! The library holds the decision logic of a small request/response/prompt
//! loop: a natural-language query is sent to a remote suggestion endpoint,
//! the structured reply is parsed into a shell command and an explanation,
//! and the user chooses to run the command, revise the query and retry, or
//! cancel. Network transport, terminal rendering and subprocess execution
//! live outside the library; what stands here — the request URL, the parse of
//! the reply, and every step of the loop — is specified and proved.
//!
//! A known security caveat: the suggested command originates from a remote,
//! untrusted service and is handed verbatim to a shell interpreter by the
//! surrounding program. Nothing here sanitizes or validates it.

pub mod client;
pub mod parser;
pub mod session;
pub mod text;
