//! Supervision of a single long-running external worker process: the state
//! machine around one optional worker handle, redirect-URL parsing for the
//! OAuth callback port and origin, input forwarding, and the decisions behind
//! port reclamation and project-root discovery.

pub mod events;
pub mod pump;
pub mod reclaim;
pub mod redirect;
pub mod rootfind;
pub mod settings;
pub mod supervisor;
pub mod text;
