//! Authentication support: security configuration, time-based one-time
//! passwords, OAuth provider settings and magic-link rules.

pub mod errors;
pub mod magic_link;
pub mod mfa;
pub mod oauth;
pub mod security;
pub mod user;
