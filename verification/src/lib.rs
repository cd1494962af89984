//! Verified core of `codex-pal`: provider profiles, Codex command construction,
//! relay bookkeeping decisions and profile configuration.

pub mod cli;
pub mod codex;
pub mod config;
pub mod error;
pub mod provider;
pub mod relay;
pub mod text;
pub mod toml_value;
