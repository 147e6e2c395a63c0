//! Synchronisation engine for a cloud video-security account: session
//! handling, error classification, cloud-media and local-storage clip
//! synchronisation, modelled as verified state machines.

pub mod text;
pub mod paths;
pub mod classify;
pub mod api;
pub mod action;
pub mod cloud;
pub mod local;
pub mod clock;
pub mod device;
pub mod session;
