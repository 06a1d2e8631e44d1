//! Verified core of a ZLMediaKit node agent: configuration defaults, public-IP
//! discovery, placeholder expansion, token hashing, the reporting loop, the
//! record-hook workflow and the TLS tunnel's retry and copy bookkeeping.
pub mod agent;
pub mod config;
pub mod ip;
pub mod json;
pub mod placeholder;
pub mod public_ip;
pub mod record;
pub mod report;
pub mod text;
pub mod tls;
pub mod token;
pub mod tunnel;
pub mod zlm;
