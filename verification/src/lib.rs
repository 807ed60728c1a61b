//! Verified core of the remote cockpit: the wire protocol shared by the
//! phone, the gateway and the desktop agent, and the decisions each of them
//! takes on what arrives over that protocol.

pub mod frame;
pub mod session;
pub mod text;
pub mod auth;
pub mod message;
pub mod danger;
pub mod fsbrowse;
pub mod config;
pub mod audit;
pub mod gateway;
pub mod codec;
pub mod agent;
pub mod phone;
pub mod laws;
pub mod tls;
