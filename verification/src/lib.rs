//! Core domain model for a multi-room chat service.
//!
//! The crate covers the entities of the service (users, rooms, messages and
//! the message-variant algebra), the identifier and timestamp disciplines
//! that order them, and the credential subsystem that derives and verifies
//! password hashes. Persistence, transport and authorization policy are
//! external collaborators and are out of scope here.

pub mod credential;
pub mod entities;
pub mod ids;
pub mod time;
pub mod validation;
