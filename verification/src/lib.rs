//! Command/event bridge between a script process and a native widget tree.
//!
//! The crate covers the wire protocol (length-prefixed, self-describing
//! binary frames), the command and event taxonomies, the registry that maps
//! script-assigned identifiers to native widget handles and tree positions,
//! and the dispatcher that turns protocol commands into idempotent mutations
//! of the native tree with defined recovery for stale or missing references.

pub mod codec;
pub mod color;
pub mod dispatcher;
pub mod kind;
pub mod num;
pub mod protocol;
pub mod registry;
pub mod session;
pub mod strutil;
pub mod style;
pub mod wire;
