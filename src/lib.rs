//! Provisioning of a versioned contract-compiler toolchain and orchestration
//! of the compile and class-id verification pipeline.
//!
//! Everything here is pure decision logic over plain values: the program in
//! `app/` performs the filesystem, network and process work and feeds the
//! observed outcomes back into these functions.

pub mod error;
pub mod platform;
pub mod layout;
pub mod toolchain;
pub mod cache;
pub mod commands;
pub mod releases;
pub mod args;
pub mod pipeline;
