//! Link to a hardware security pen and resumable chunked file transfer,
//! written as verified decision logic: the radio, network and disk work is
//! done by the caller, which feeds the outcomes back in.

pub mod text;
pub mod chunk;
pub mod credential;
pub mod peer;
pub mod link;
pub mod session;
pub mod manager;
pub mod state;
pub mod exchange;
pub mod transfer;
pub mod download;
pub mod upload;
pub mod config;
pub mod filetype;
pub mod remote;
