//! Sandbox bootstrap for unprivileged containers.
//!
//! The library models the whole bootstrap sequence — rootfs cache, handshake
//! channel, identity mapping, namespace initialization, and the PID-1
//! bootstrapper — as verified state machines over plain values. A thin
//! unverified driver performs the actual system calls and feeds their
//! outcomes back into the machines.

pub mod cache;
pub mod host;
pub mod identity;
pub mod mounts;
pub mod protocol;
pub mod release;
pub mod sandbox;
