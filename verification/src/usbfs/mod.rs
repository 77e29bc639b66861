//! The rules of usbfs files: what a device's descriptors allow, which
//! interfaces are claimed, and how requests from user space are served.
//!
//! A request is served in steps. Each step names work that is done outside,
//! on user memory or on the device, and the method that takes its outcome
//! gives the next step.

pub mod abi;
pub mod calls;
pub mod descriptors;
pub mod events;
pub mod file;
pub mod iso;
pub mod laws;
pub mod mount;
