//! Remote control of an always-on media player and the small durable store
//! that lets playback resume after a restart.
//!
//! The crate performs no input or output itself.  Every operation is split
//! into the part that decides (here) and the part that touches the file
//! system or the network (the caller): the library says which file action or
//! device request comes next, the caller performs it and hands the outcome
//! back.
pub mod backend;
pub mod errors;
pub mod media_service;
pub mod session;
pub mod text;
