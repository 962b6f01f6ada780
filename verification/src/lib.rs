pub mod common;
pub mod text;
pub mod features;
pub mod cli;
pub mod output;
pub mod runner;
pub mod json;
pub mod config;
pub mod commands;
