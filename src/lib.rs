//! Signed WebSocket connection URLs for an exchange API: a canonical message
//! over the API key and a millisecond timestamp, an HMAC-SHA256 signature
//! over it, and a query string that carries both.

pub mod decimal;
pub mod hexdigits;
pub mod mac;
pub mod signer;
pub mod laws;
