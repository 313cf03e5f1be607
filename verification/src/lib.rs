//! Cryptographic sign-off for dangerous code: a risky construct is allowed
//! only inside a declaration whose signature annotation verifies against a
//! canonical encoding of that declaration.

pub mod codec;
pub mod config;
pub mod pass;
pub mod sign;
pub mod tree;
pub mod validator;

pub use config::plugin_registrar;
pub use sign::gen_keypair;
