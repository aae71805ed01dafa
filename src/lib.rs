//! Connection and state-synchronisation core of a lobby companion for a locally
//! running game client: the credentials record, the event-stream wire format, the
//! client state machine and the decisions of the connection supervisor.

pub mod client_state;
pub mod config;
pub mod json;
pub mod lcu;
pub mod supervisor;
pub mod text;
