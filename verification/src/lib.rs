//! Project generator for FPGA designs: a catalog of chips and boards, the
//! text of the files a new project starts with, and the plan by which a
//! project is put on disk.

pub mod text;
pub mod assets;
pub mod filesystem;
pub mod hardware;
pub mod templates;
pub mod new_command;
pub mod plan_proofs;
pub mod materializer;
pub mod config;
pub mod cli;
