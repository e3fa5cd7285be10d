pub mod cli;
pub mod common;
pub mod domain;
pub mod engine_client;
pub mod identifiers;
pub mod storage;
pub mod tasks;
pub mod text;
