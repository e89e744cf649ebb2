//! Audio ports between the mixing graph and the application.

pub mod pjmedia_api;
pub mod pjmedia_port_audio_sink;
pub mod pjmedia_port_audio_stream;
