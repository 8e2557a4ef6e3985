//! Cookie- and bearer-token authentication core of a small athletics backend:
//! token issuance and verification, the token cache that acts as the
//! revocation registry, the per-request authentication state machine, and the
//! login / refresh / logout flows, together with the data models the HTTP
//! layer exchanges with them.
pub mod decimal;
pub mod hexid;
pub mod claims;
pub mod errors;
pub mod b64;
pub mod jwt;
pub mod token_cache;
pub mod user;
pub mod password;
pub mod jwt_auth;
pub mod auth_flow;
pub mod points;
pub mod dburl;
