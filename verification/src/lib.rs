//! A small greeting library: a single-method greeting capability with a
//! fixed-locale variant, a service that delegates to whichever strategy it
//! was given, a client model for a remote greeting service, and the
//! configuration rules of the HTTP front end.

pub mod add;
pub mod front_end;
pub mod hello_world;
pub mod remote_hello_world;
