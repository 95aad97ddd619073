//! Verified decision logic for creating, resizing and tearing down EGL contexts
//! (desktop EGL windows, headless pbuffers, and ANGLE's Direct3D 11 backend),
//! and for the event loop of a windowless renderer.
//!
//! Every call into EGL is performed by the host, which runs the state machines of
//! this crate: each machine says which EGL call comes next, the host makes it and
//! hands the reply back.

pub mod consts;
pub mod attrib;
pub mod text;
pub mod command;
pub mod error;
pub mod config;
pub mod headless;
pub mod window;
pub mod angle;
pub mod event_loop;
