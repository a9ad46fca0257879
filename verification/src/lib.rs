//! The core of media controls on a message bus.
//!
//! A media player exports what it is playing, its playback status, its
//! volume and the controls that it offers, and takes commands from remote
//! controls. This library holds the part of such a service that decides:
//! the service state and how a command changes it, the change
//! notifications that follow, the steps of the service worker, and the
//! handle that attaches and detaches the worker and passes commands on to
//! it. The connection to the bus and the thread of the worker belong to
//! the host of the library.

pub mod bus;
pub mod controls;
pub mod dict;
pub mod error;
pub mod event;
pub mod media;
pub mod metadata;
pub mod property;
pub mod state;
pub mod worker;
