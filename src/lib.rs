//! Method registry, parameter validation and backend bridging for a local
//! calendar daemon.
//!
//! A call names a method and carries parameters. [`service::CalendarService`]
//! looks the method up, checks the parameters against its declared schema
//! ([`validate`]), turns them into the positional arguments of a backend
//! operation ([`registry`]) and hands that to a [`backend::Backend`]: either
//! a helper process run per call, whose output [`backend`] interprets, or a
//! long-lived connection that [`warm`] lets one call at a time into.

pub mod backend;
pub mod error;
pub mod json;
pub mod laws;
pub mod registry;
pub mod schema;
pub mod service;
pub mod text;
pub mod validate;
pub mod value;
pub mod warm;
