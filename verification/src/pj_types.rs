//! The types that audio travels in.

pub use super::pjmedia::pjmedia_api::Frame;
