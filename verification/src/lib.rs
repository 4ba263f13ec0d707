//! Verified core of a bot that plays a video in a chat channel as a series of
//! animated images, each uploaded through a two-phase HTTP request.

pub mod decimal;
pub mod multipart;
pub mod upload;
pub mod pacing;
pub mod commands;
pub mod encode;
