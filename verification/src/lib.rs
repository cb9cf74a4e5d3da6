//! A minimal early-boot library for a Linux image: decoding the kernel's
//! initial stack into a process context, resolving a program's result into a
//! process exit status, sequencing the PID-1 boot transition (mount the
//! pseudo-filesystems, await the root block device, mount it, relocate the
//! mounts, switch root, hand off), and building the control block that binds
//! a file to a loop block device.

pub mod context;
pub mod loopdev;
pub mod sequencer;
pub mod termination;
