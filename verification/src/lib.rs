//! Call control for a SIP softphone: accounts, incoming calls and per-call
//! audio ports, kept apart from the native signalling and media engine.
//!
//! Nothing here talks to the engine. Every operation that needs the engine
//! is split in two: a function that says what to ask of it (an
//! [`engine::EngineRequest`]) and a function that takes the engine's answer
//! and decides how to go on. The caller performs the request in between.
//! Notifications travel through bounded channels whose two halves live in the
//! values of this crate.

pub mod decimal;
pub mod tokio_utils;
pub mod error;
pub mod engine;
pub mod notify_channel;
pub mod pjmedia;
pub mod pj_types;
pub mod transport;
pub mod pjsua_config;
pub mod pjsua_conf_bridge;
pub mod pjsua_softphone_api;
pub mod pjsua_call;
pub mod pjsua_account_config;
pub mod pjsua_sink_buffer_media_port;
