//! Client-side logic of a code-execution daemon client: the byte sources that
//! make up a request, the payloads and commands picked from the command line,
//! and the decisions of the connect / launch / retry protocol.

pub mod config;
pub mod source;
pub mod retry;
pub mod message;
pub mod command;
pub mod forward;
