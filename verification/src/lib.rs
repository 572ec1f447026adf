//! Authentication and authorisation pipeline for a livestock-management
//! backend: a capability bitmask permission model, signed-claims token codec
//! built on RSA JSON Web Tokens, dual-channel (header / cookie) credential
//! extraction, and the ordered middleware stage decisions (authentication,
//! transparent refresh, capability enforcement, exact-role gates).

pub mod claims;
pub mod config;
pub mod dto;
pub mod errors;
pub mod extract;
pub mod permissions;
pub mod roles;
pub mod stages;
pub mod strutil;
pub mod token;
