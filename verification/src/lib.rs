//! Boot-sequence logic of an initramfs init program: configuration parsing,
//! partition discovery and the state machine that orders every mount,
//! helper process and terminal action.
//!
//! The library performs no input or output. A boot is a `machine::Boot`
//! that hands out one `protocol::Request` at a time and takes the
//! `protocol::Reply` to it; the caller carries the requests out.

pub mod boot;
pub mod cli;
pub mod config;
pub mod error;
pub mod invoke;
pub mod laws;
pub mod machine;
pub mod partitions;
pub mod protocol;
pub mod stage;
pub mod text;
pub mod unix;

pub use crate::config::{read_cfg, Cfg};
pub use crate::machine::{
    bail_to_shell, full_init, mount_pseudo_filesystems, mount_user_filesystems, run_init, run_mdev,
    switch_root, try_unmount,
};
pub use crate::partitions::{get_partitions, Partitions};
