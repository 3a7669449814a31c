//! A password-authenticated secure-tunnel endpoint: password-to-keypair
//! derivation, the fixed-size client handshake message, its server-side
//! acceptance, and the per-connection state machine that a readiness loop
//! drives.
pub mod connection;
pub mod handshake;
pub mod primitives;
pub mod role;
pub mod session;
