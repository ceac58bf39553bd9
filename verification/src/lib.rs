//! Fleet orchestration and broadcast engine for a set of chat-bot mirrors.
//!
//! Each mirror is one bot instance bound to its own provider credential
//! ("token"); all mirrors share one user/role registry and one broadcast
//! mechanism.  This library holds the verified core: the data model of the
//! two registries, the token-syntax validator, the command grammar, the
//! per-chat dialogue state machine that gates privileged commands, and the
//! broadcast fan-out accounting.  The surrounding process (provider I/O,
//! document store access, task spawning) feeds events in as plain values
//! and carries the decisions out.

pub mod broadcast;
pub mod commands;
pub mod dialogue;
pub mod fleet;
pub mod registry;
pub mod structs;
pub mod token;
