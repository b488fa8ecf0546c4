//! A message bus core: the routing table that decides which listener a
//! request reaches, and the rules that turn transport outcomes into the
//! bus's own results.

pub mod errors;
pub mod registry;
pub mod reply;
pub mod laws;

pub use crate::errors::MsgBusError;
pub use crate::registry::Registry;
