//! A small service core for publishing Ed25519 signing public keys.
//!
//! A submitted key is validated (trimmed, checked for stray whitespace or
//! control characters, bounded in size, and required to be Base64 text that
//! decodes to exactly 32 bytes), stored in an append-only record store under
//! a fresh UUID, and rendered back as an HTML page with a shareable link.

pub mod codec;
pub mod ids;
pub mod laws;
pub mod page;
pub mod service;
pub mod store;
pub mod text;
pub mod validate;
