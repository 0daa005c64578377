//! Registry for Secure Unique NFC (SUN) tag authentication.
//!
//! A physical tag holds a secret key and a monotonic counter; on every read
//! it emits the counter plus a truncated MAC. This library verifies such
//! submissions: it rebuilds the fixed 16-byte authentication message,
//! recomputes the two-stage CMAC-AES128 chain, truncates the result, and
//! compares it against the claimed signature, while a small registry state
//! machine enforces admin-gated registration, id uniqueness, and strict
//! counter monotonicity (anti-replay).

pub mod errors;
pub mod msg;
pub mod registry;
pub mod state;
pub mod validate;
