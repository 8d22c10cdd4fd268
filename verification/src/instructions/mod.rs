//! The instructions of the escrow program.
pub mod cancel;
pub mod fulfill;
pub mod init;
pub mod update;
