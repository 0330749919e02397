pub mod chunker;
pub mod cli;
pub mod config;
pub mod corpus;
pub mod domain;
pub mod embedder;
pub mod files;
pub mod report;
pub mod scorer;
pub mod syntax;
pub mod text;
