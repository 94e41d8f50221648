//! Core of an article-and-comments content backend: the permission /
//! authorization decision engine, input validation, and the comment tree
//! builder, together with the data model they operate over and the
//! use-case orchestration that composes them with storage gateways.

pub mod access;
pub mod actor;
pub mod article_ops;
pub mod comment_ops;
pub mod config;
pub mod errors;
pub mod file_ops;
pub mod gateways;
pub mod models;
pub mod rate;
pub mod tag_ops;
pub mod tree;
pub mod validation;
