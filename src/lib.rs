//! Authentication core of a bio-link service: password hashing, signed
//! session tokens, request gates and the registration / login decisions.

pub mod authentication;
pub mod errors;
pub mod password;
pub mod payloads;
pub mod gates;
pub mod accounts;
pub mod links;
