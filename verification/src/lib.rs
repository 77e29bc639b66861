//! The rules of the StarryOS build tool and of the kernel's usbfs files.

pub mod argument_laws;
pub mod bytes;
pub mod calls;
pub mod case_assets;
pub mod cli;
pub mod command_laws;
pub mod error;
pub mod listing;
pub mod notices;
pub mod paths;
pub mod pcap;
pub mod quick_start;
pub mod request;
pub mod rootfs;
pub mod run;
pub mod starry;
pub mod test_run;
pub mod test_suit;
pub mod text;
pub mod usbfs;
pub mod wave;
