//! OAuth2 surface: the client that validates redirect URIs, and the
//! authorization-URL builders, whose output is pinned down character by
//! character.

pub mod authorization_url;
pub mod client;
pub mod scope;
