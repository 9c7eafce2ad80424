//! An interactive OAuth 2.0 authorization-code flow with PKCE for a
//! command-line tool: PKCE material generation, authorization-URL
//! construction, a single-use callback handoff, manual code capture,
//! state validation, and token-exchange evaluation.

pub mod authurl;
pub mod encoding;
pub mod errors;
pub mod exchange;
pub mod flow;
pub mod handoff;
pub mod manual;
pub mod pkce;
pub mod query;
