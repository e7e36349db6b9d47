//! Action engine of a command-line tool for a publish/subscribe/query bus:
//! argument resolution, peer discovery, repeated publication, query
//! dispatch, query answering and liveliness tokens, as decisions over
//! plain values. The program around it performs the network operations.

pub mod text;
pub mod argument;
pub mod discovery;
pub mod publish;
pub mod query;
pub mod queryable;
pub mod liveliness;
pub mod config;
pub mod dispatch;
