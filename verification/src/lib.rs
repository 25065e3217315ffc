//! Verified core of the zodiacal-web plate-solving service: the wire types
//! shared by server and client, the decisions the server takes while it
//! accepts an upload and streams a solve, and the client's view of them.

pub mod app_socket;
pub mod binary64;
pub mod client;
pub mod decimal;
pub mod decode;
pub mod fits_cards;
pub mod indexes;
pub mod models;
pub mod protocol;
pub mod solve_session;
pub mod solver_config;
pub mod text;
pub mod upload;
