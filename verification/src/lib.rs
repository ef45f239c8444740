//! Configuration resolution and dispatch for a node launcher that can join
//! one of three networks, as a full participant or as a light client.
//!
//! The stages run in a fixed order: the identifier is resolved to a network
//! variant, the source of the chain specification is chosen, the runtime and
//! executor are bound, the address format is fixed, and only then is a node
//! or a maintenance operation planned.

pub mod variant;
pub mod text;
pub mod resolver;
pub mod binding;
pub mod environment;
pub mod options;
pub mod loader;
pub mod dispatcher;
pub mod cli;
pub mod command;
