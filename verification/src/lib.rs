//! Runs the Kiro command line agent: how its command is put together, how its output becomes
//! conversation entries, and how the tool is installed and logged in.

pub mod actions;
pub mod command;
pub mod config;
pub mod conversation;
pub mod entries;
pub mod kiro;
pub mod kiro_setup;
pub mod normalizer;
pub mod outside;
pub mod text;
pub mod tools;
